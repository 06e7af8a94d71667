//! Fatal errors of the program.
use vstd::prelude::*;

verus! {

/// The I/O error type of the standard library, carried opaquely.
#[verifier::external_type_specification]
#[verifier::external_body]
pub struct ExIoError(std::io::Error);

/// Fatal errors that can occur at runtime.
#[derive(Debug)]
pub enum Error {
    /// An I/O error
    Io(std::io::Error),
    /// No configuration path was found
    NoConfig,
}

impl Error {
    /// What the error says to the user where it has a fixed text.
    pub fn fixed_message(&self) -> (r: Option<&'static str>)
        ensures
            r is Some <==> self is NoConfig,
            r matches Some(m) ==> m@ == "no configuration path found (try passing one with `--config`)"@,
    {
        match self {
            Error::Io(_) => None,
            Error::NoConfig => Some("no configuration path found (try passing one with `--config`)"),
        }
    }
}

impl From<std::io::Error> for Error {
    fn from(error: std::io::Error) -> (r: Error)
        ensures
            r == Error::Io(error),
    {
        Error::Io(error)
    }
}

impl vstd::std_specs::convert::FromSpecImpl<std::io::Error> for Error {
    open spec fn obeys_from_spec() -> bool {
        true
    }

    open spec fn from_spec(v: std::io::Error) -> Error {
        Error::Io(v)
    }
}

} // verus!
