//! What can stop the program before it starts watching.

use vstd::prelude::*;
use vstd::string::StringExecFns;

verus! {

/// A failure at startup. Each one ends the program with its message.
#[derive(Debug, PartialEq, Eq)]
pub enum SupipiError {
    /// The chosen device could not be opened; carries the system's words.
    Io(String),
    /// The signal handlers could not be installed; carries the reason.
    Signal(String),
    /// No input device goes by the keyboard's name.
    NoKeyboard,
}

impl SupipiError {
    /// The message shown to the operator.
    pub open spec fn text(&self) -> Seq<char> {
        match self {
            SupipiError::Io(detail) => "IO error: "@ + detail@,
            SupipiError::Signal(detail) => "Signal error: "@ + detail@,
            SupipiError::NoKeyboard => "No suitable KB USB KB keyboard found"@,
        }
    }

    /// Renders the message shown to the operator.
    pub fn message(&self) -> (message: String)
        ensures
            message@ == self.text(),
    {
        match self {
            SupipiError::Io(detail) => {
                let mut message = String::from_str("IO error: ");
                message.append(detail.as_str());
                message
            },
            SupipiError::Signal(detail) => {
                let mut message = String::from_str("Signal error: ");
                message.append(detail.as_str());
                message
            },
            SupipiError::NoKeyboard => String::from_str("No suitable KB USB KB keyboard found"),
        }
    }
}

} // verus!
