//! A minimal rendering bootstrap: builds a GPU shader program from source text
//! (compile two stages, link them, surface diagnostics as structured errors)
//! and drives a self-re-arming per-frame redraw loop synchronized to the host
//! display's refresh signal.

pub mod pipeline;
mod gl;
pub mod scheduler;

pub use pipeline::build_program;
pub use pipeline::compile_outcome;
pub use pipeline::compile_shader;
pub use pipeline::link_outcome;
pub use pipeline::link_program;
pub use pipeline::BuildError;
pub use pipeline::BuildErrorKind;
pub use pipeline::BuildPhase;
pub use pipeline::CompiledShader;
pub use pipeline::LinkedProgram;
pub use pipeline::ShaderStage;
pub use scheduler::frame_commands;
pub use scheduler::FrameCommand;
pub use scheduler::FramePlan;
pub use scheduler::FrameScheduler;
