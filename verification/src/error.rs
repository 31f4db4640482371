//! The launcher's failure taxonomy. Every pipeline failure is carried to
//! the top-level caller unchanged and rendered from its message.
use vstd::prelude::*;

use crate::config::Error;

verus! {

/// A lower-level input/output failure reported by a collaborator,
/// reduced to its message.
#[derive(Debug)]
pub struct IoFailure {
    pub message: String,
}

/// Everything that can go wrong between reading the configuration and
/// the child process's exit.
#[derive(Debug)]
pub enum ChaperoneError {
    /// No active profile name was supplied to the launcher.
    MissingProfile,
    /// No command tokens were supplied.
    EmptyCommand,
    /// The child executable could not be spawned; carries its name.
    CommandNotFound(String),
    /// Profile resolution failed.
    ConfigurationError(Error),
    /// A collaborator's input/output failure.
    IoError(IoFailure),
}

impl ChaperoneError {
    /// The message shown to the user for this failure.
    pub open spec fn spec_message(&self) -> Seq<char> {
        match self {
            ChaperoneError::MissingProfile => "No CHAPERONE_PROFILE defined."@,
            ChaperoneError::EmptyCommand => "No command given."@,
            ChaperoneError::CommandNotFound(name) => "Command not found: "@ + name@,
            ChaperoneError::ConfigurationError(error) => "Error with configuration: "@
                + error.spec_message(),
            ChaperoneError::IoError(error) => "I/O Error: "@ + error.message@,
        }
    }

    pub fn message(&self) -> (r: String)
        ensures
            r@ == self.spec_message(),
    {
        match self {
            ChaperoneError::MissingProfile => String::from_str("No CHAPERONE_PROFILE defined."),
            ChaperoneError::EmptyCommand => String::from_str("No command given."),
            ChaperoneError::CommandNotFound(name) => {
                let mut s = String::from_str("Command not found: ");
                s.append(name.as_str());
                s
            },
            ChaperoneError::ConfigurationError(error) => {
                let inner = error.message();
                let mut s = String::from_str("Error with configuration: ");
                s.append(inner.as_str());
                s
            },
            ChaperoneError::IoError(error) => {
                let mut s = String::from_str("I/O Error: ");
                s.append(error.message.as_str());
                s
            },
        }
    }
}

impl From<Error> for ChaperoneError {
    fn from(error: Error) -> (r: Self) {
        ChaperoneError::ConfigurationError(error)
    }
}

impl vstd::std_specs::convert::FromSpecImpl<Error> for ChaperoneError {
    open spec fn obeys_from_spec() -> bool {
        true
    }

    open spec fn from_spec(error: Error) -> Self {
        ChaperoneError::ConfigurationError(error)
    }
}

impl From<IoFailure> for ChaperoneError {
    fn from(error: IoFailure) -> (r: Self) {
        ChaperoneError::IoError(error)
    }
}

impl vstd::std_specs::convert::FromSpecImpl<IoFailure> for ChaperoneError {
    open spec fn obeys_from_spec() -> bool {
        true
    }

    open spec fn from_spec(error: IoFailure) -> Self {
        ChaperoneError::IoError(error)
    }
}

} // verus!
