use vstd::prelude::*;

use crate::shader::StageKind;

verus! {

/// A call, or a short fixed run of calls, that the caller makes on the
/// graphics driver on behalf of a build.
#[derive(Debug, PartialEq, Eq)]
pub enum Command {
    /// Create a shader object of this stage; reply `Created` with its handle.
    CreateShader(StageKind),
    /// Hand the zero-terminated `source` to `shader`, compile it and query
    /// its compile status; reply `Status`.
    CompileShader { shader: u32, source: Vec<u8> },
    /// Query the length of the shader's diagnostic log; reply `LogLength`.
    QueryShaderLogLength(u32),
    /// Fetch the shader's diagnostic log into a buffer of `capacity` bytes;
    /// reply `Log` with the buffer.
    FetchShaderLog { shader: u32, capacity: usize },
    /// Delete the shader object.
    DeleteShader(u32),
    /// Create a program object; reply `Created` with its handle.
    CreateProgram,
    /// Attach each shader to `program` in turn, link the program and query
    /// its link status; reply `Status`.
    AttachAndLink { program: u32, shaders: Vec<u32> },
    /// Query the length of the program's diagnostic log; reply `LogLength`.
    QueryProgramLogLength(u32),
    /// Fetch the program's diagnostic log into a buffer of `capacity` bytes;
    /// reply `Log` with the buffer.
    FetchProgramLog { program: u32, capacity: usize },
    /// Detach each shader from `program` in turn.
    DetachShaders { program: u32, shaders: Vec<u32> },
    /// Delete the program object.
    DeleteProgram(u32),
    /// Make the program the active one for the draw calls that follow.
    UseProgram(u32),
    /// Nothing to do.
    Nothing,
}

/// What the driver answered to the last command.
#[derive(Debug, PartialEq, Eq)]
pub enum Reply {
    /// The handle of a newly created object.
    Created(u32),
    /// A compile or link status: zero for failure, anything else for success.
    Status(i32),
    /// The length that the driver reported for a diagnostic log.
    LogLength(i32),
    /// The buffer that a diagnostic log was fetched into.
    Log(Vec<u8>),
}

} // verus!
