//! Shader program construction for a minimal triangle renderer.
//!
//! The graphics driver is never called from this library. Building a shader
//! stage or a program is a sequence of driver calls with a few decisions in
//! between; each build is a state machine that is fed the driver's replies
//! and answers with the next [`driver::Command`] to perform.
pub mod driver;
pub mod err;
pub mod info_log;
pub mod program;
pub mod scene;
pub mod shader;
pub mod source;
