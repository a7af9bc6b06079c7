use vstd::prelude::*;

verus! {

/// What can go wrong while a record is read back or written out.
#[derive(Debug)]
pub enum Error {
    /// The file could not be read, created or written.
    IO(std::io::Error),
    /// The text is not a well-formed record, or a value could not be written as text.
    Serde(serde_json::Error),
}

impl From<std::io::Error> for Error {
    fn from(value: std::io::Error) -> (error: Self) {
        Error::IO(value)
    }
}

impl vstd::std_specs::convert::FromSpecImpl<std::io::Error> for Error {
    open spec fn obeys_from_spec() -> bool {
        true
    }

    open spec fn from_spec(value: std::io::Error) -> Self {
        Error::IO(value)
    }
}

impl From<serde_json::Error> for Error {
    fn from(value: serde_json::Error) -> (error: Self) {
        Error::Serde(value)
    }
}

impl vstd::std_specs::convert::FromSpecImpl<serde_json::Error> for Error {
    open spec fn obeys_from_spec() -> bool {
        true
    }

    open spec fn from_spec(value: serde_json::Error) -> Self {
        Error::Serde(value)
    }
}

} // verus!
