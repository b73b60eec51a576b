use vstd::prelude::*;

verus! {

/// Error taxonomy of the supervisor core.
///
/// `Config` reports a named server node that is absent from the catalog (or
/// another catalog-level misuse), `Deserialize` a malformed external proxy
/// configuration, `Command` a failed external command, and `Io` a file or
/// process error. The core itself only constructs `Config` and `Deserialize`;
/// the remaining variants exist for the callers that perform the actual
/// system effects and report their failures through the same type.
#[derive(Debug, PartialEq, Eq)]
pub enum Error {
    Config(String),
    Deserialize(String),
    Command(String),
    Io(String),
}

pub type HunterResult<T> = Result<T, Error>;

impl Error {
    /// A human-readable description of the error.
    pub fn message(&self) -> (r: &str)
        ensures
            r@ == spec_error_message(*self),
    {
        match self {
            Error::Config(m) => m.as_str(),
            Error::Deserialize(m) => m.as_str(),
            Error::Command(m) => m.as_str(),
            Error::Io(m) => m.as_str(),
        }
    }
}

pub open spec fn spec_error_message(e: Error) -> Seq<char> {
    match e {
        Error::Config(m) => m@,
        Error::Deserialize(m) => m@,
        Error::Command(m) => m@,
        Error::Io(m) => m@,
    }
}

} // verus!
