//! The failures that end the program before a transfer starts.

use vstd::prelude::*;
use vstd::string::*;

verus! {

/// Why a configuration could not be made.
#[derive(Debug, Clone, PartialEq, Eq)]
pub enum StartupError {
    /// A size, rate or buffer literal is malformed or too large; holds the
    /// literal.
    Config(String),
    /// The named file does not exist; holds the path.
    NotFound(String),
    /// The command line is not one that the program takes.
    Usage,
}

/// A [`StartupError`] with the text it holds as a sequence of characters.
pub enum StartupErrorView {
    Config(Seq<char>),
    NotFound(Seq<char>),
    Usage,
}

impl View for StartupError {
    type V = StartupErrorView;

    open spec fn view(&self) -> StartupErrorView {
        match self {
            StartupError::Config(literal) => StartupErrorView::Config(literal@),
            StartupError::NotFound(path) => StartupErrorView::NotFound(path@),
            StartupError::Usage => StartupErrorView::Usage,
        }
    }
}

/// The line shown to the user for a failure.
pub open spec fn message_text(e: StartupErrorView) -> Seq<char> {
    match e {
        StartupErrorView::Config(literal) =>
            "Error: Could not parse the human number. Expected something like 10M, or 12345, but got: "@
                + literal,
        StartupErrorView::NotFound(path) => "Error: File "@ + path + " does not exist"@,
        StartupErrorView::Usage => "Error: Failed to parse options"@,
    }
}

impl StartupError {
    /// The line to show before the process terminates: it names the
    /// operation that failed and the text that made it fail.
    pub fn message(&self) -> (m: String)
        ensures
            m@ == message_text(self@),
    {
        match self {
            StartupError::Config(literal) => {
                let mut m = String::from_str(
                    "Error: Could not parse the human number. Expected something like 10M, or 12345, but got: ",
                );
                m.append(literal.as_str());
                m
            },
            StartupError::NotFound(path) => {
                let mut m = String::from_str("Error: File ");
                m.append(path.as_str());
                m.append(" does not exist");
                m
            },
            StartupError::Usage => String::from_str("Error: Failed to parse options"),
        }
    }
}

} // verus!
