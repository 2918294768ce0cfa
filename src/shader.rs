use vstd::prelude::*;

use crate::driver::{Command, Reply};
use crate::err::Error;
use crate::info_log::{capacity_for, log_capacity, log_text, lossy_text, text_end};
use crate::source::{has_nul, source_buffer, terminated};
use vstd::string::StringSliceAdditionalSpecFns;

verus! {

/// The programmable stage of the pipeline that a shader is compiled for.
#[derive(Clone, Copy, Debug, PartialEq, Eq, Structural)]
pub enum StageKind {
    Vertex,
    Fragment,
}

/// A successfully compiled shader object, tagged with its stage. Only a
/// build whose compile status came back as success makes one.
#[derive(Debug)]
pub struct ShaderUnit {
    id: u32,
    kind: StageKind,
}

impl ShaderUnit {
    /// The driver's handle of the shader object.
    pub closed spec fn handle(&self) -> u32 {
        self.id
    }

    /// The stage the shader was compiled for.
    pub closed spec fn stage(&self) -> StageKind {
        self.kind
    }

    pub fn id(&self) -> (r: u32)
        ensures
            r == self.handle(),
    {
        self.id
    }

    pub fn kind(&self) -> (r: StageKind)
        ensures
            r == self.stage(),
    {
        self.kind
    }

    /// Gives up the shader object: the command deletes it, and with `self`
    /// consumed nothing is left to delete it a second time.
    pub fn release(self) -> (r: Command)
        ensures
            r == Command::DeleteShader(self.handle()),
    {
        Command::DeleteShader(self.id)
    }
}

/// The compilation of one shader stage, step by step.
#[derive(Debug)]
pub enum ShaderBuild {
    /// Waiting for the shader object to be created.
    Start { kind: StageKind, source: Vec<u8> },
    /// Waiting for the compile status of shader `id`.
    Compiling { id: u32, kind: StageKind },
    /// Compilation failed; waiting for the length of the log of shader `id`.
    LogLength { id: u32 },
    /// Compilation failed; waiting for the log of shader `id`.
    Log { id: u32 },
    /// Compiled.
    Ready(ShaderUnit),
    /// Failed, with the shader object deleted.
    Failed(Error),
}

impl ShaderBuild {
    /// The stage being compiled, while the build is under way.
    pub open spec fn building(&self) -> Option<StageKind> {
        match self {
            ShaderBuild::Start { kind, .. } => Some(*kind),
            ShaderBuild::Compiling { kind, .. } => Some(*kind),
            _ => None,
        }
    }

    /// The shader object that the build has created and must still either
    /// hand over or delete.
    pub open spec fn held(&self) -> Option<u32> {
        match self {
            ShaderBuild::Compiling { id, .. } => Some(*id),
            ShaderBuild::LogLength { id } => Some(*id),
            ShaderBuild::Log { id } => Some(*id),
            _ => None,
        }
    }

    /// Starts compiling `text` as a shader of stage `kind`. A text holding a
    /// zero byte cannot be handed to the driver and is refused.
    pub fn start(text: &str, kind: StageKind) -> (r: Result<(ShaderBuild, Command), Error>)
        ensures
            has_nul(text.spec_bytes()) <==> r is Err,
            r is Err ==> r->Err_0 is Other,
            r is Ok ==> {
                let (b, c) = r->Ok_0;
                &&& b is Start
                &&& b->Start_kind == kind
                &&& b->Start_source@ == terminated(text.spec_bytes())
                &&& c == Command::CreateShader(kind)
            },
    {
        match source_buffer(text) {
            Ok(source) => Ok((ShaderBuild::Start { kind, source }, Command::CreateShader(kind))),
            Err(e) => Err(e),
        }
    }

    /// Takes the driver's reply to the last command, and gives the next state
    /// and the next command. A reply that the state does not wait for leaves
    /// it as it is.
    pub fn step(self, reply: Reply) -> (r: (ShaderBuild, Command))
        ensures
            match (self, reply) {
                (ShaderBuild::Start { kind, source }, Reply::Created(id)) => {
                    &&& r.0 == (ShaderBuild::Compiling { id, kind })
                    &&& r.1 == (Command::CompileShader { shader: id, source })
                },
                (ShaderBuild::Compiling { id, kind }, Reply::Status(s)) => if s != 0 {
                    &&& r.0 is Ready
                    &&& r.0->Ready_0.handle() == id
                    &&& r.0->Ready_0.stage() == kind
                    &&& r.1 == Command::Nothing
                } else {
                    &&& r.0 == (ShaderBuild::LogLength { id })
                    &&& r.1 == Command::QueryShaderLogLength(id)
                },
                (ShaderBuild::LogLength { id }, Reply::LogLength(n)) => {
                    &&& r.0 == (ShaderBuild::Log { id })
                    &&& r.1 == (Command::FetchShaderLog { shader: id, capacity: capacity_for(n) })
                },
                (ShaderBuild::Log { id }, Reply::Log(buf)) => {
                    &&& r.0 is Failed
                    &&& r.0->Failed_0 is ShaderCompile
                    &&& r.0->Failed_0->ShaderCompile_log@ == lossy_text(buf@.take(text_end(buf@)))
                    &&& (text_end(buf@) > 0 <==> r.0->Failed_0->ShaderCompile_log@.len() > 0)
                    &&& r.1 == Command::DeleteShader(id)
                },
                _ => r.0 == self && r.1 == Command::Nothing,
            },
            // a successful build keeps the stage it was started with
            self.building() is Some && r.0 is Ready ==> r.0->Ready_0.stage() == self.building()->Some_0,
            // the object created is kept, handed to the unit, or deleted
            self.held() is Some ==> {
                ||| r.0.held() == self.held()
                ||| r.0 is Ready && r.0->Ready_0.handle() == self.held()->Some_0
                ||| r.1 == Command::DeleteShader(self.held()->Some_0)
            },
            r.0 is Failed && !(self is Failed) ==> r.0.held() is None && self.held() is Some
                && r.1 == Command::DeleteShader(self.held()->Some_0),
    {
        match self {
            ShaderBuild::Start { kind, source } => match reply {
                Reply::Created(id) => (
                    ShaderBuild::Compiling { id, kind },
                    Command::CompileShader { shader: id, source },
                ),
                _ => (ShaderBuild::Start { kind, source }, Command::Nothing),
            },
            ShaderBuild::Compiling { id, kind } => match reply {
                Reply::Status(s) => if s != 0 {
                    (ShaderBuild::Ready(ShaderUnit { id, kind }), Command::Nothing)
                } else {
                    (ShaderBuild::LogLength { id }, Command::QueryShaderLogLength(id))
                },
                _ => (ShaderBuild::Compiling { id, kind }, Command::Nothing),
            },
            ShaderBuild::LogLength { id } => match reply {
                Reply::LogLength(n) => (
                    ShaderBuild::Log { id },
                    Command::FetchShaderLog { shader: id, capacity: log_capacity(n) },
                ),
                _ => (ShaderBuild::LogLength { id }, Command::Nothing),
            },
            ShaderBuild::Log { id } => match reply {
                Reply::Log(buf) => {
                    let log = log_text(&buf);
                    (ShaderBuild::Failed(Error::ShaderCompile { log }), Command::DeleteShader(id))
                },
                _ => (ShaderBuild::Log { id }, Command::Nothing),
            },
            ShaderBuild::Ready(unit) => (ShaderBuild::Ready(unit), Command::Nothing),
            ShaderBuild::Failed(e) => (ShaderBuild::Failed(e), Command::Nothing),
        }
    }
}

} // verus!
