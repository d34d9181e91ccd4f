//! Errors of setting up the module.
use vstd::prelude::*;
use crate::text::{owned, concat2};

verus! {

/// Errors of setting up the module.
#[derive(Debug, Clone, PartialEq, Eq)]
pub enum Error {
    /// The module was set up before.
    AlreadyInitialized,
    /// The module was not set up.
    NotInitialized,
    /// Internal error.
    Internal(String),
    /// Configuration error.
    Config(String),
    /// OpenFGA error.
    OpenFGA(String),
    /// Dex error.
    Dex(String),
}

/// The text of an error.
pub open spec fn error_message_spec(e: Error) -> Seq<char> {
    match e {
        Error::AlreadyInitialized => "Already initialized"@,
        Error::NotInitialized => "Not initialized"@,
        Error::Internal(m) => "Internal error: "@ + m@,
        Error::Config(m) => "Configuration error: "@ + m@,
        Error::OpenFGA(m) => "OpenFGA error: "@ + m@,
        Error::Dex(m) => "Dex error: "@ + m@,
    }
}

impl Error {
    /// The text of this error.
    pub fn message(&self) -> (r: String)
        ensures
            r@ == error_message_spec(*self),
    {
        match self {
            Error::AlreadyInitialized => owned("Already initialized"),
            Error::NotInitialized => owned("Not initialized"),
            Error::Internal(m) => concat2("Internal error: ", m.as_str()),
            Error::Config(m) => concat2("Configuration error: ", m.as_str()),
            Error::OpenFGA(m) => concat2("OpenFGA error: ", m.as_str()),
            Error::Dex(m) => concat2("Dex error: ", m.as_str()),
        }
    }
}

} // verus!
