use vstd::prelude::*;

use crate::driver::{Command, Reply};
use crate::err::Error;
use crate::info_log::{capacity_for, log_capacity, log_text, lossy_text, text_end};
use crate::shader::ShaderUnit;

verus! {

/// A successfully linked program object. Only a build whose link status came
/// back as success makes one.
#[derive(Debug)]
pub struct Program {
    id: u32,
}

/// The active-program slot of the graphics context: the program that draw
/// calls use, if any. There is one per context.
#[derive(Debug)]
pub struct ActiveSlot {
    current: Option<u32>,
}

/// The slot's content after a program is made active: that program, whatever
/// was there before.
pub open spec fn after_activate(slot: Option<u32>, program: u32) -> Option<u32> {
    Some(program)
}

/// Making the same program active twice in a row leaves the slot as making it
/// active once does, holding that program: activation never toggles.
pub proof fn activate_twice(slot: Option<u32>, program: u32)
    ensures
        after_activate(after_activate(slot, program), program) == after_activate(slot, program),
        after_activate(after_activate(slot, program), program) == Some(program),
{
}

impl ActiveSlot {
    /// What the slot holds.
    pub closed spec fn active(&self) -> Option<u32> {
        self.current
    }

    /// The slot of a fresh context, with no program active.
    pub fn new() -> (r: ActiveSlot)
        ensures
            r.active() is None,
    {
        ActiveSlot { current: None }
    }

    pub fn current(&self) -> (r: Option<u32>)
        ensures
            r == self.active(),
    {
        self.current
    }
}

impl Program {
    /// The driver's handle of the program object.
    pub closed spec fn handle(&self) -> u32 {
        self.id
    }

    pub fn id(&self) -> (r: u32)
        ensures
            r == self.handle(),
    {
        self.id
    }

    /// Makes this program the active one: the slot holds it afterwards, and
    /// the command tells the driver so.
    pub fn activate(&self, slot: &mut ActiveSlot) -> (r: Command)
        ensures
            final(slot).active() == after_activate(old(slot).active(), self.handle()),
            r == Command::UseProgram(self.handle()),
    {
        slot.current = Some(self.id);
        Command::UseProgram(self.id)
    }

    /// Gives up the program object: the command deletes it, and with `self`
    /// consumed nothing is left to delete it a second time.
    pub fn release(self) -> (r: Command)
        ensures
            r == Command::DeleteProgram(self.handle()),
    {
        Command::DeleteProgram(self.id)
    }
}

/// The handles of the shader objects of `units`, in order.
pub open spec fn handles(units: Seq<ShaderUnit>) -> Seq<u32> {
    units.map_values(|u: ShaderUnit| u.handle())
}

fn copy_handles(v: &Vec<u32>) -> (r: Vec<u32>)
    ensures
        r@ == v@,
{
    let mut r: Vec<u32> = Vec::new();
    let mut i: usize = 0;
    while i < v.len()
        invariant
            0 <= i <= v@.len(),
            r@ == v@.take(i as int),
        decreases v@.len() - i,
    {
        r.push(v[i]);
        i = i + 1;
        assert(r@ =~= v@.take(i as int));
    }
    assert(r@ =~= v@);
    r
}

/// The linking of a program from compiled shaders, step by step.
#[derive(Debug)]
pub enum ProgramBuild {
    /// Waiting for the program object to be created.
    Start { shaders: Vec<u32> },
    /// Waiting for the link status of program `id`, with `shaders` attached.
    Linking { id: u32, shaders: Vec<u32> },
    /// Linking failed; waiting for the length of the log of program `id`.
    LogLength { id: u32 },
    /// Linking failed; waiting for the log of program `id`.
    Log { id: u32 },
    /// Linked, with every shader detached again.
    Ready(Program),
    /// Failed, with the program object deleted.
    Failed(Error),
}

impl ProgramBuild {
    /// The program object that the build has created and must still either
    /// hand over or delete.
    pub open spec fn held(&self) -> Option<u32> {
        match self {
            ProgramBuild::Linking { id, .. } => Some(*id),
            ProgramBuild::LogLength { id } => Some(*id),
            ProgramBuild::Log { id } => Some(*id),
            _ => None,
        }
    }

    /// Starts linking a program from `units`. The units stay with the caller:
    /// the program keeps none of them once linked.
    pub fn start(units: &[ShaderUnit]) -> (r: (ProgramBuild, Command))
        ensures
            r.0 is Start,
            r.0->Start_shaders@ == handles(units@),
            r.1 == Command::CreateProgram,
    {
        let mut shaders: Vec<u32> = Vec::new();
        let mut i: usize = 0;
        while i < units.len()
            invariant
                0 <= i <= units@.len(),
                shaders@ == handles(units@.take(i as int)),
            decreases units@.len() - i,
        {
            shaders.push(units[i].id());
            i = i + 1;
            assert(shaders@ =~= handles(units@.take(i as int)));
        }
        assert(units@.take(units@.len() as int) =~= units@);
        (ProgramBuild::Start { shaders }, Command::CreateProgram)
    }

    /// Takes the driver's reply to the last command, and gives the next state
    /// and the next command. A reply that the state does not wait for leaves
    /// it as it is.
    pub fn step(self, reply: Reply) -> (r: (ProgramBuild, Command))
        ensures
            match (self, reply) {
                (ProgramBuild::Start { shaders }, Reply::Created(id)) => {
                    &&& r.0 is Linking
                    &&& r.0->Linking_id == id
                    &&& r.0->Linking_shaders@ == shaders@
                    &&& r.1 is AttachAndLink
                    &&& r.1->AttachAndLink_program == id
                    &&& r.1->AttachAndLink_shaders@ == shaders@
                },
                (ProgramBuild::Linking { id, shaders }, Reply::Status(s)) => if s != 0 {
                    &&& r.0 is Ready
                    &&& r.0->Ready_0.handle() == id
                    &&& r.1 == (Command::DetachShaders { program: id, shaders })
                } else {
                    &&& r.0 == (ProgramBuild::LogLength { id })
                    &&& r.1 == Command::QueryProgramLogLength(id)
                },
                (ProgramBuild::LogLength { id }, Reply::LogLength(n)) => {
                    &&& r.0 == (ProgramBuild::Log { id })
                    &&& r.1 == (Command::FetchProgramLog { program: id, capacity: capacity_for(n) })
                },
                (ProgramBuild::Log { id }, Reply::Log(buf)) => {
                    &&& r.0 is Failed
                    &&& r.0->Failed_0 is ProgramLink
                    &&& r.0->Failed_0->ProgramLink_log@ == lossy_text(buf@.take(text_end(buf@)))
                    &&& (text_end(buf@) > 0 <==> r.0->Failed_0->ProgramLink_log@.len() > 0)
                    &&& r.1 == Command::DeleteProgram(id)
                },
                _ => r.0 == self && r.1 == Command::Nothing,
            },
            // the object created is kept, handed to the program, or deleted
            self.held() is Some ==> {
                ||| r.0.held() == self.held()
                ||| r.0 is Ready && r.0->Ready_0.handle() == self.held()->Some_0
                ||| r.1 == Command::DeleteProgram(self.held()->Some_0)
            },
            r.0 is Failed && !(self is Failed) ==> r.0.held() is None && self.held() is Some
                && r.1 == Command::DeleteProgram(self.held()->Some_0),
    {
        match self {
            ProgramBuild::Start { shaders } => match reply {
                Reply::Created(id) => {
                    let attach = copy_handles(&shaders);
                    (
                        ProgramBuild::Linking { id, shaders },
                        Command::AttachAndLink { program: id, shaders: attach },
                    )
                },
                _ => (ProgramBuild::Start { shaders }, Command::Nothing),
            },
            ProgramBuild::Linking { id, shaders } => match reply {
                Reply::Status(s) => if s != 0 {
                    (ProgramBuild::Ready(Program { id }), Command::DetachShaders { program: id, shaders })
                } else {
                    (ProgramBuild::LogLength { id }, Command::QueryProgramLogLength(id))
                },
                _ => (ProgramBuild::Linking { id, shaders }, Command::Nothing),
            },
            ProgramBuild::LogLength { id } => match reply {
                Reply::LogLength(n) => (
                    ProgramBuild::Log { id },
                    Command::FetchProgramLog { program: id, capacity: log_capacity(n) },
                ),
                _ => (ProgramBuild::LogLength { id }, Command::Nothing),
            },
            ProgramBuild::Log { id } => match reply {
                Reply::Log(buf) => {
                    let log = log_text(&buf);
                    (ProgramBuild::Failed(Error::ProgramLink { log }), Command::DeleteProgram(id))
                },
                _ => (ProgramBuild::Log { id }, Command::Nothing),
            },
            ProgramBuild::Ready(p) => (ProgramBuild::Ready(p), Command::Nothing),
            ProgramBuild::Failed(e) => (ProgramBuild::Failed(e), Command::Nothing),
        }
    }
}

} // verus!
