//! Narrow trusted calls into the host's drawing context. Each function wraps
//! exactly one `web_sys` binding; what the driver answers depends on the
//! machine and the context's state, so nothing is claimed of the answers —
//! every decision on them is made by the verified code in `pipeline`.

use vstd::prelude::*;

use crate::pipeline::ShaderStage;

use web_sys::WebGl2RenderingContext;
use web_sys::WebGlProgram;
use web_sys::WebGlShader;

verus! {

/// Declares the browser's drawing-context type; a value of it is opaque here.
#[verifier::external_type_specification]
#[verifier::external_body]
pub struct ExWebGl2RenderingContext(WebGl2RenderingContext);

/// Declares the driver's shader-object handle; opaque here.
#[verifier::external_type_specification]
#[verifier::external_body]
pub struct ExWebGlShader(WebGlShader);

/// Declares the driver's program-object handle; opaque here.
#[verifier::external_type_specification]
#[verifier::external_body]
pub struct ExWebGlProgram(WebGlProgram);

/// Relies on `WebGl2RenderingContext::create_shader`: asks the driver for a
/// new shader object of the given stage; the driver may refuse.
#[verifier::external_body]
pub(crate) fn gl_create_shader(
    context: &WebGl2RenderingContext,
    stage: ShaderStage,
) -> Option<WebGlShader> {
    let gl_stage: u32 = match stage {
        ShaderStage::Vertex => WebGl2RenderingContext::VERTEX_SHADER,
        ShaderStage::Fragment => WebGl2RenderingContext::FRAGMENT_SHADER,
    };
    context.create_shader(gl_stage)
}

/// Relies on `WebGl2RenderingContext::shader_source`: submits source text to
/// a shader object.
#[verifier::external_body]
pub(crate) fn gl_shader_source(
    context: &WebGl2RenderingContext,
    shader: &WebGlShader,
    source: &str,
) {
    context.shader_source(shader, source);
}

/// Relies on `WebGl2RenderingContext::compile_shader`: asks the driver to
/// compile the submitted source.
#[verifier::external_body]
pub(crate) fn gl_compile(context: &WebGl2RenderingContext, shader: &WebGlShader) {
    context.compile_shader(shader);
}

/// Relies on `WebGl2RenderingContext::get_shader_parameter` with
/// `COMPILE_STATUS`: queries the boolean compile-status flag; `None` when the
/// driver's answer is not a boolean.
#[verifier::external_body]
pub(crate) fn gl_compile_status(
    context: &WebGl2RenderingContext,
    shader: &WebGlShader,
) -> Option<bool> {
    context.get_shader_parameter(shader, WebGl2RenderingContext::COMPILE_STATUS).as_bool()
}

/// Relies on `WebGl2RenderingContext::get_shader_info_log`: fetches the
/// driver's diagnostic log for a shader object, if it has one.
#[verifier::external_body]
pub(crate) fn gl_shader_info_log(
    context: &WebGl2RenderingContext,
    shader: &WebGlShader,
) -> Option<String> {
    context.get_shader_info_log(shader)
}

/// Relies on `WebGl2RenderingContext::delete_shader`: releases a shader
/// object back to the driver.
#[verifier::external_body]
pub(crate) fn gl_delete_shader(context: &WebGl2RenderingContext, shader: &WebGlShader) {
    context.delete_shader(Some(shader));
}

/// Relies on `WebGl2RenderingContext::create_program`: asks the driver for a
/// new program object; the driver may refuse.
#[verifier::external_body]
pub(crate) fn gl_create_program(context: &WebGl2RenderingContext) -> Option<WebGlProgram> {
    context.create_program()
}

/// Relies on `WebGl2RenderingContext::attach_shader`: attaches a compiled
/// shader object to a program object.
#[verifier::external_body]
pub(crate) fn gl_attach_shader(
    context: &WebGl2RenderingContext,
    program: &WebGlProgram,
    shader: &WebGlShader,
) {
    context.attach_shader(program, shader);
}

/// Relies on `WebGl2RenderingContext::link_program`: asks the driver to link
/// the attached stages.
#[verifier::external_body]
pub(crate) fn gl_link(context: &WebGl2RenderingContext, program: &WebGlProgram) {
    context.link_program(program);
}

/// Relies on `WebGl2RenderingContext::get_program_parameter` with
/// `LINK_STATUS`: queries the boolean link-status flag; `None` when the
/// driver's answer is not a boolean.
#[verifier::external_body]
pub(crate) fn gl_link_status(
    context: &WebGl2RenderingContext,
    program: &WebGlProgram,
) -> Option<bool> {
    context.get_program_parameter(program, WebGl2RenderingContext::LINK_STATUS).as_bool()
}

/// Relies on `WebGl2RenderingContext::get_program_info_log`: fetches the
/// driver's diagnostic log for a program object, if it has one.
#[verifier::external_body]
pub(crate) fn gl_program_info_log(
    context: &WebGl2RenderingContext,
    program: &WebGlProgram,
) -> Option<String> {
    context.get_program_info_log(program)
}

/// Relies on `WebGl2RenderingContext::delete_program`: releases a program
/// object back to the driver.
#[verifier::external_body]
pub(crate) fn gl_delete_program(context: &WebGl2RenderingContext, program: &WebGlProgram) {
    context.delete_program(Some(program));
}

} // verus!
