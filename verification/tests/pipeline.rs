use renderboot::compile_outcome;
use renderboot::link_outcome;
use renderboot::BuildErrorKind;
use renderboot::BuildPhase;
use renderboot::CompiledShader;
use renderboot::LinkedProgram;
use renderboot::ShaderStage;

const VERTEX_SOURCE: &str = "#version 300 es\nvoid main(){gl_Position=vec4(0);}";
const FRAGMENT_SOURCE: &str =
    "#version 300 es\nprecision mediump float;\nout vec4 color;\nvoid main(){color=vec4(0);}";

#[test]
fn compile_success_yields_stage_tagged_handle() {
    let r = compile_outcome(ShaderStage::Vertex, VERTEX_SOURCE, true, Some(true), None);
    assert_eq!(r, Ok(CompiledShader { stage: ShaderStage::Vertex }));
    let r = compile_outcome(ShaderStage::Fragment, FRAGMENT_SOURCE, true, Some(true), None);
    assert_eq!(r, Ok(CompiledShader { stage: ShaderStage::Fragment }));
}

#[test]
fn compile_success_ignores_leftover_log() {
    let r = compile_outcome(
        ShaderStage::Vertex,
        VERTEX_SOURCE,
        true,
        Some(true),
        Some(String::from("stale warning")),
    );
    assert_eq!(r, Ok(CompiledShader { stage: ShaderStage::Vertex }));
}

#[test]
fn compile_creation_failure() {
    let r = compile_outcome(ShaderStage::Vertex, VERTEX_SOURCE, false, None, None);
    let e = r.unwrap_err();
    assert_eq!(e.phase, BuildPhase::VertexCompile);
    assert_eq!(e.kind, BuildErrorKind::ObjectCreationFailure);
    assert_eq!(e.message, "Unable to create shader object");
}

#[test]
fn compile_rejected_with_log() {
    let r = compile_outcome(
        ShaderStage::Fragment,
        "not a shader",
        true,
        Some(false),
        Some(String::from("ERROR: 0:1: syntax error")),
    );
    let e = r.unwrap_err();
    assert_eq!(e.phase, BuildPhase::FragmentCompile);
    assert_eq!(e.kind, BuildErrorKind::CompileFailure);
    assert_eq!(e.message, "ERROR: 0:1: syntax error");
    assert!(!e.message.is_empty());
}

#[test]
fn compile_rejected_without_log_uses_fallback() {
    let r = compile_outcome(ShaderStage::Vertex, "not a shader", true, Some(false), None);
    let e = r.unwrap_err();
    assert_eq!(e.kind, BuildErrorKind::CompileFailure);
    assert_eq!(e.message, "Unknown error creating shader");
}

#[test]
fn compile_rejected_empty_log_uses_fallback() {
    let r = compile_outcome(
        ShaderStage::Vertex,
        "not a shader",
        true,
        Some(false),
        Some(String::new()),
    );
    let e = r.unwrap_err();
    assert_eq!(e.kind, BuildErrorKind::CompileFailure);
    assert_eq!(e.message, "Unknown error creating shader");
}

#[test]
fn compile_rejected_when_status_is_not_a_boolean() {
    let r = compile_outcome(ShaderStage::Vertex, VERTEX_SOURCE, true, None, None);
    let e = r.unwrap_err();
    assert_eq!(e.phase, BuildPhase::VertexCompile);
    assert_eq!(e.kind, BuildErrorKind::CompileFailure);
    assert_eq!(e.message, "Unknown error creating shader");
}

#[test]
fn compile_empty_source_fails_before_the_driver_answers() {
    let r = compile_outcome(ShaderStage::Fragment, "", true, Some(true), None);
    let e = r.unwrap_err();
    assert_eq!(e.phase, BuildPhase::FragmentCompile);
    assert_eq!(e.kind, BuildErrorKind::CompileFailure);
    assert_eq!(e.message, "Shader source text is empty");
}

#[test]
fn compile_twice_yields_equal_independent_handles() {
    let first = compile_outcome(ShaderStage::Vertex, VERTEX_SOURCE, true, Some(true), None);
    let second = compile_outcome(ShaderStage::Vertex, VERTEX_SOURCE, true, Some(true), None);
    assert_eq!(first, second);
    assert_eq!(
        first.unwrap(),
        CompiledShader { stage: ShaderStage::Vertex }
    );
    assert_eq!(
        second.unwrap(),
        CompiledShader { stage: ShaderStage::Vertex }
    );
}

#[test]
fn link_success_yields_program() {
    let r = link_outcome(true, Some(true), None);
    assert_eq!(r, Ok(LinkedProgram {}));
}

#[test]
fn link_creation_failure() {
    let r = link_outcome(false, None, None);
    let e = r.unwrap_err();
    assert_eq!(e.phase, BuildPhase::Link);
    assert_eq!(e.kind, BuildErrorKind::ObjectCreationFailure);
    assert_eq!(e.message, "Unable to create shader object");
}

#[test]
fn link_rejected_with_log() {
    let r = link_outcome(
        true,
        Some(false),
        Some(String::from("varying mismatch between stages")),
    );
    let e = r.unwrap_err();
    assert_eq!(e.phase, BuildPhase::Link);
    assert_eq!(e.kind, BuildErrorKind::LinkFailure);
    assert_eq!(e.message, "varying mismatch between stages");
    assert!(!e.message.is_empty());
}

#[test]
fn link_rejected_without_log_uses_fallback() {
    let r = link_outcome(true, Some(false), None);
    let e = r.unwrap_err();
    assert_eq!(e.kind, BuildErrorKind::LinkFailure);
    assert_eq!(e.message, "Unknown error creating program object");
}

#[test]
fn minimal_pair_compiles_and_links() {
    let vert = compile_outcome(ShaderStage::Vertex, VERTEX_SOURCE, true, Some(true), None)
        .expect("vertex stage should compile");
    let frag = compile_outcome(ShaderStage::Fragment, FRAGMENT_SOURCE, true, Some(true), None)
        .expect("fragment stage should compile");
    assert_eq!(vert.stage, ShaderStage::Vertex);
    assert_eq!(frag.stage, ShaderStage::Fragment);
    let program = link_outcome(true, Some(true), None);
    assert_eq!(program, Ok(LinkedProgram {}));
}

#[test]
fn describe_returns_the_diagnostic_text() {
    let e = link_outcome(true, Some(false), Some(String::from("bad interface"))).unwrap_err();
    assert_eq!(e.describe(), "bad interface");
}
