//! The shader program build pipeline: compile one shader stage from source
//! text, link two compiled stages into an executable program, and surface
//! compiler and linker diagnostics as structured errors.
//!
//! The decision of what each observed driver outcome means is made by
//! [`compile_outcome`] and [`link_outcome`], which are pure functions from
//! plain values and carry exact contracts. [`compile_shader`],
//! [`link_program`] and [`build_program`] gather the driver's answers through
//! narrow trusted calls and delegate every decision to those two functions.

use vstd::prelude::*;
use vstd::string::StringExecFns;

use crate::gl;

use web_sys::WebGl2RenderingContext;
use web_sys::WebGlProgram;
use web_sys::WebGlShader;

verus! {

/// One of the two shader roles in the rendering pipeline.
#[derive(Clone, Copy, Debug, PartialEq, Eq, Structural)]
pub enum ShaderStage {
    Vertex,
    Fragment,
}

/// The phase of the build pipeline in which an error arose.
#[derive(Clone, Copy, Debug, PartialEq, Eq, Structural)]
pub enum BuildPhase {
    VertexCompile,
    FragmentCompile,
    Link,
}

/// What went wrong: the driver refused to allocate an object, rejected a
/// shader's source text, or rejected the combination of two compiled stages.
#[derive(Clone, Copy, Debug, PartialEq, Eq, Structural)]
pub enum BuildErrorKind {
    ObjectCreationFailure,
    CompileFailure,
    LinkFailure,
}

/// A terminal build failure: the phase it arose in, its kind, and a
/// human-readable diagnostic. Never retried; the startup sequence aborts.
#[derive(Debug, PartialEq)]
pub struct BuildError {
    pub phase: BuildPhase,
    pub kind: BuildErrorKind,
    pub message: String,
}

/// Witness of a successful compile: a handle's stage tag. A value of this
/// type exists only for a stage whose compile-status flag came back true.
#[derive(Clone, Copy, Debug, PartialEq, Eq, Structural)]
pub struct CompiledShader {
    pub stage: ShaderStage,
}

/// Witness of a successful link: a value of this type exists only when the
/// link-status flag came back true.
#[derive(Clone, Copy, Debug, PartialEq, Eq, Structural)]
pub struct LinkedProgram {}

impl BuildError {
    /// Every error the pipeline returns carries a non-empty diagnostic, and
    /// its kind agrees with the phase it names.
    pub open spec fn wf(&self) -> bool {
        &&& self.message@.len() > 0
        &&& (self.kind is LinkFailure ==> self.phase is Link)
        &&& (self.kind is CompileFailure ==> self.phase !is Link)
    }

    /// The diagnostic text, for hosts that want to display the error.
    pub fn describe(&self) -> (r: &str)
        ensures
            r@ == self.message@,
    {
        self.message.as_str()
    }
}

/// The compile phase that reports failures of the given stage.
pub open spec fn compile_phase(stage: ShaderStage) -> BuildPhase {
    match stage {
        ShaderStage::Vertex => BuildPhase::VertexCompile,
        ShaderStage::Fragment => BuildPhase::FragmentCompile,
    }
}

/// Diagnostic used when the driver refuses to allocate an object.
pub open spec fn creation_failure_message() -> Seq<char> {
    "Unable to create shader object"@
}

/// Fallback diagnostic for a failed compile with no usable driver log.
pub open spec fn unknown_shader_message() -> Seq<char> {
    "Unknown error creating shader"@
}

/// Fallback diagnostic for a failed link with no usable driver log.
pub open spec fn unknown_program_message() -> Seq<char> {
    "Unknown error creating program object"@
}

/// Diagnostic for source text that is rejected before the driver is asked.
pub open spec fn empty_source_message() -> Seq<char> {
    "Shader source text is empty"@
}

/// The driver's diagnostic log if it is present and non-empty, else the
/// fallback. An absent or empty log is treated as unavailable, so that every
/// reported diagnostic is non-empty.
pub open spec fn spec_message(log: Option<Seq<char>>, fallback: Seq<char>) -> Seq<char> {
    match log {
        Some(l) => if l.len() > 0 {
            l
        } else {
            fallback
        },
        None => fallback,
    }
}

/// The views of an optional diagnostic log.
pub open spec fn log_view(log: Option<String>) -> Option<Seq<char>> {
    match log {
        Some(l) => Some(l@),
        None => None,
    }
}

/// The meaning of one compile attempt, from what was observed: the source
/// text submitted, whether a shader object could be created, the
/// compile-status flag (`None` when the driver's answer was not a boolean),
/// and the driver's diagnostic log. `None` is success; otherwise the phase,
/// kind and diagnostic of the error owed to the caller.
pub open spec fn spec_compile_error(
    stage: ShaderStage,
    source: Seq<char>,
    created: bool,
    status: Option<bool>,
    log: Option<Seq<char>>,
) -> Option<(BuildPhase, BuildErrorKind, Seq<char>)> {
    if source.len() == 0 {
        Some((compile_phase(stage), BuildErrorKind::CompileFailure, empty_source_message()))
    } else if !created {
        Some((compile_phase(stage), BuildErrorKind::ObjectCreationFailure, creation_failure_message()))
    } else if status == Some(true) {
        None
    } else {
        Some((compile_phase(stage), BuildErrorKind::CompileFailure, spec_message(log, unknown_shader_message())))
    }
}

/// The meaning of one link attempt, from what was observed: whether a program
/// object could be created, the link-status flag, and the driver's log.
pub open spec fn spec_link_error(
    created: bool,
    status: Option<bool>,
    log: Option<Seq<char>>,
) -> Option<(BuildPhase, BuildErrorKind, Seq<char>)> {
    if !created {
        Some((BuildPhase::Link, BuildErrorKind::ObjectCreationFailure, creation_failure_message()))
    } else if status == Some(true) {
        None
    } else {
        Some((BuildPhase::Link, BuildErrorKind::LinkFailure, spec_message(log, unknown_program_message())))
    }
}

/// The driver's log if present and non-empty, else the fallback.
fn message_from_log(log: Option<String>, fallback: &str) -> (r: String)
    requires
        fallback@.len() > 0,
    ensures
        r@ == spec_message(log_view(log), fallback@),
        r@.len() > 0,
{
    match log {
        Some(l) => {
            if l.as_str().is_empty() {
                String::from_str(fallback)
            } else {
                l
            }
        },
        None => String::from_str(fallback),
    }
}

/// Decides what one compile attempt returned, from the observed values alone:
/// success is owed exactly when the source was non-empty, a shader object was
/// created, and the compile-status flag came back true; every other
/// observation yields the error that [`spec_compile_error`] names.
pub fn compile_outcome(
    stage: ShaderStage,
    source: &str,
    created: bool,
    status: Option<bool>,
    log: Option<String>,
) -> (r: Result<CompiledShader, BuildError>)
    ensures
        r is Ok <==> spec_compile_error(stage, source@, created, status, log_view(log)) is None,
        r matches Ok(c) ==> c.stage == stage,
        r matches Err(e) ==> {
            &&& Some((e.phase, e.kind, e.message@)) == spec_compile_error(
                stage,
                source@,
                created,
                status,
                log_view(log),
            )
            &&& e.wf()
        },
{
    let phase = match stage {
        ShaderStage::Vertex => BuildPhase::VertexCompile,
        ShaderStage::Fragment => BuildPhase::FragmentCompile,
    };
    if source.is_empty() {
        proof {
            reveal_strlit("Shader source text is empty");
        }
        return Err(BuildError {
            phase,
            kind: BuildErrorKind::CompileFailure,
            message: String::from_str("Shader source text is empty"),
        });
    }
    if !created {
        proof {
            reveal_strlit("Unable to create shader object");
        }
        return Err(BuildError {
            phase,
            kind: BuildErrorKind::ObjectCreationFailure,
            message: String::from_str("Unable to create shader object"),
        });
    }
    match status {
        Some(true) => Ok(CompiledShader { stage }),
        _ => {
            proof {
                reveal_strlit("Unknown error creating shader");
            }
            let message = message_from_log(log, "Unknown error creating shader");
            Err(BuildError { phase, kind: BuildErrorKind::CompileFailure, message })
        },
    }
}

/// Decides what one link attempt returned, from the observed values alone:
/// success is owed exactly when a program object was created and the
/// link-status flag came back true; every other observation yields the error
/// that [`spec_link_error`] names.
pub fn link_outcome(created: bool, status: Option<bool>, log: Option<String>) -> (r: Result<
    LinkedProgram,
    BuildError,
>)
    ensures
        r is Ok <==> spec_link_error(created, status, log_view(log)) is None,
        r matches Err(e) ==> {
            &&& Some((e.phase, e.kind, e.message@)) == spec_link_error(created, status, log_view(log))
            &&& e.wf()
        },
{
    if !created {
        proof {
            reveal_strlit("Unable to create shader object");
        }
        return Err(BuildError {
            phase: BuildPhase::Link,
            kind: BuildErrorKind::ObjectCreationFailure,
            message: String::from_str("Unable to create shader object"),
        });
    }
    match status {
        Some(true) => Ok(LinkedProgram {}),
        _ => {
            proof {
                reveal_strlit("Unknown error creating program object");
            }
            let message = message_from_log(log, "Unknown error creating program object");
            Err(BuildError { phase: BuildPhase::Link, kind: BuildErrorKind::LinkFailure, message })
        },
    }
}

/// Compiles one shader stage from source text against the given context.
///
/// Empty source text is rejected here, before the driver is asked, so that a
/// host never submits a shader with no text. Whatever the driver answers, an
/// error carries the phase of the given stage and a non-empty diagnostic, and
/// a shader object allocated for a failed compile is released again.
pub fn compile_shader(
    context: &WebGl2RenderingContext,
    stage: ShaderStage,
    source: &str,
) -> (r: Result<WebGlShader, BuildError>)
    ensures
        r matches Err(e) ==> {
            &&& e.wf()
            &&& e.phase == compile_phase(stage)
            &&& (e.kind is CompileFailure || e.kind is ObjectCreationFailure)
            &&& (e.kind is ObjectCreationFailure ==> e.message@ == creation_failure_message())
        },
        source@.len() == 0 ==> (r matches Err(e)
            && e.kind is CompileFailure
            && e.message@ == empty_source_message()),
{
    if source.is_empty() {
        return match compile_outcome(stage, source, false, None, None) {
            Ok(_) => vstd::pervasive::unreached(),
            Err(e) => Err(e),
        };
    }
    match gl::gl_create_shader(context, stage) {
        None => match compile_outcome(stage, source, false, None, None) {
            Ok(_) => vstd::pervasive::unreached(),
            Err(e) => Err(e),
        },
        Some(shader) => {
            gl::gl_shader_source(context, &shader, source);
            gl::gl_compile(context, &shader);
            let status = gl::gl_compile_status(context, &shader);
            let log = gl::gl_shader_info_log(context, &shader);
            match compile_outcome(stage, source, true, status, log) {
                Ok(_) => Ok(shader),
                Err(e) => {
                    gl::gl_delete_shader(context, &shader);
                    Err(e)
                },
            }
        },
    }
}

/// Links a compiled vertex and fragment shader into an executable program.
///
/// Whatever the driver answers, an error names the link phase and carries a
/// non-empty diagnostic, and a program object allocated for a failed link is
/// released again.
pub fn link_program(
    context: &WebGl2RenderingContext,
    vert_shader: &WebGlShader,
    frag_shader: &WebGlShader,
) -> (r: Result<WebGlProgram, BuildError>)
    ensures
        r matches Err(e) ==> {
            &&& e.wf()
            &&& e.phase is Link
            &&& (e.kind is LinkFailure || e.kind is ObjectCreationFailure)
            &&& (e.kind is ObjectCreationFailure ==> e.message@ == creation_failure_message())
        },
{
    match gl::gl_create_program(context) {
        None => match link_outcome(false, None, None) {
            Ok(_) => vstd::pervasive::unreached(),
            Err(e) => Err(e),
        },
        Some(program) => {
            gl::gl_attach_shader(context, &program, vert_shader);
            gl::gl_attach_shader(context, &program, frag_shader);
            gl::gl_link(context, &program);
            let status = gl::gl_link_status(context, &program);
            let log = gl::gl_program_info_log(context, &program);
            match link_outcome(true, status, log) {
                Ok(_) => Ok(program),
                Err(e) => {
                    gl::gl_delete_program(context, &program);
                    Err(e)
                },
            }
        },
    }
}

/// Runs the whole startup build: compile the vertex stage, compile the
/// fragment stage, link the two. The first failure aborts the sequence and is
/// returned unchanged; nothing is retried. The two shader objects are
/// released once the link has copied their state, or on any failure path.
pub fn build_program(
    context: &WebGl2RenderingContext,
    vertex_source: &str,
    fragment_source: &str,
) -> (r: Result<WebGlProgram, BuildError>)
    ensures
        r matches Err(e) ==> e.wf(),
        vertex_source@.len() == 0 ==> (r matches Err(e)
            && e.phase is VertexCompile
            && e.kind is CompileFailure),
        fragment_source@.len() == 0 ==> (r matches Err(e)
            && e.phase !is Link
            && (e.phase is FragmentCompile ==> e.kind is CompileFailure)),
{
    let vert = match compile_shader(context, ShaderStage::Vertex, vertex_source) {
        Ok(s) => s,
        Err(e) => {
            return Err(e);
        },
    };
    let frag = match compile_shader(context, ShaderStage::Fragment, fragment_source) {
        Ok(s) => s,
        Err(e) => {
            gl::gl_delete_shader(context, &vert);
            return Err(e);
        },
    };
    let result = link_program(context, &vert, &frag);
    gl::gl_delete_shader(context, &vert);
    gl::gl_delete_shader(context, &frag);
    result
}

/// For every pair of sources whose compile observations and whose link
/// observation all report success, the pipeline owes a program: no
/// observation in such a run names an error.
pub proof fn lemma_successful_build_yields_program(
    vertex_source: Seq<char>,
    fragment_source: Seq<char>,
    vertex_log: Option<Seq<char>>,
    fragment_log: Option<Seq<char>>,
    link_log: Option<Seq<char>>,
)
    requires
        vertex_source.len() > 0,
        fragment_source.len() > 0,
    ensures
        spec_compile_error(ShaderStage::Vertex, vertex_source, true, Some(true), vertex_log) is None,
        spec_compile_error(ShaderStage::Fragment, fragment_source, true, Some(true), fragment_log) is None,
        spec_link_error(true, Some(true), link_log) is None,
{
}

/// A compile whose status flag does not come back true is a `CompileFailure`
/// carrying a non-empty diagnostic, whatever the driver's log held.
pub proof fn lemma_rejected_compile_diagnostic(
    stage: ShaderStage,
    source: Seq<char>,
    status: Option<bool>,
    log: Option<Seq<char>>,
)
    requires
        status != Some(true),
    ensures
        spec_compile_error(stage, source, true, status, log) matches Some(t) && t.1
            is CompileFailure && t.2.len() > 0,
{
    reveal_strlit("Shader source text is empty");
    reveal_strlit("Unknown error creating shader");
}

/// A link whose status flag does not come back true is a `LinkFailure`
/// carrying a non-empty diagnostic — among its causes, two compiled shaders
/// whose interfaces do not match.
pub proof fn lemma_rejected_link_diagnostic(status: Option<bool>, log: Option<Seq<char>>)
    requires
        status != Some(true),
    ensures
        spec_link_error(true, status, log) matches Some(t) && t.1 is LinkFailure && t.2.len() > 0,
{
    reveal_strlit("Unknown error creating program object");
}

/// Compiling the same valid source twice against independently created shader
/// objects succeeds both times with the same outcome, whatever diagnostic log
/// either attempt produced: the two handles are equal values that share no
/// state.
pub proof fn lemma_compile_idempotent(
    stage: ShaderStage,
    source: Seq<char>,
    first_log: Option<Seq<char>>,
    second_log: Option<Seq<char>>,
)
    requires
        source.len() > 0,
    ensures
        spec_compile_error(stage, source, true, Some(true), first_log) is None,
        spec_compile_error(stage, source, true, Some(true), first_log) == spec_compile_error(
            stage,
            source,
            true,
            Some(true),
            second_log,
        ),
{
}

} // verus!
