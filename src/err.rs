use vstd::prelude::*;

verus! {

/// The failures of this library.
#[derive(Debug, PartialEq, Eq)]
pub enum Error {
    /// A shader stage did not compile; `log` is the compiler's diagnostic text.
    ShaderCompile { log: String },
    /// A program did not link; `log` is the linker's diagnostic text.
    ProgramLink { log: String },
    /// Any other failure, described by `message`.
    Other { message: String },
}

/// A generic error carrying a descriptive message.
pub fn new(message: &str) -> (r: Error)
    ensures
        r is Other,
        r->Other_message@ == message@,
{
    Error::Other { message: message.to_string() }
}

impl Error {
    /// The diagnostic text or message that the error carries.
    pub fn message(&self) -> (r: String)
        ensures
            r@ == match self {
                Error::ShaderCompile { log } => log@,
                Error::ProgramLink { log } => log@,
                Error::Other { message } => message@,
            },
    {
        match self {
            Error::ShaderCompile { log } => log.clone(),
            Error::ProgramLink { log } => log.clone(),
            Error::Other { message } => message.clone(),
        }
    }
}

} // verus!
