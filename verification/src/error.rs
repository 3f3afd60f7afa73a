//! The ways in which listing or running a suite fails.

use crate::pattern::{error_text, shown_error};
use vstd::prelude::*;

verus! {

/// Why a listing or a run was given up. Nothing is retried: the first
/// failure ends the operation.
#[derive(Debug, PartialEq)]
pub enum RunError {
    /// The pattern that should select the cases is not a valid expression.
    InvalidPattern { pattern: String, error: regex::Error },
    /// The remote side refused to start the suite, for the reason it gave.
    Launch { reason: String },
    /// A request did not get through to the remote side.
    Transport { cause: String },
    /// The suite reported a case without a name where cases are selected
    /// to be run.
    NamelessCase,
    /// The task that drives the suite reported a failure.
    Execution { cause: String },
    /// The event stream ended before the suite signalled that it was done.
    PrematureTermination,
}

/// Mathematical view of a [`RunError`].
pub enum Failure {
    InvalidPattern { pattern: Seq<char>, error: regex::Error },
    Launch { reason: Seq<char> },
    Transport { cause: Seq<char> },
    NamelessCase,
    Execution { cause: Seq<char> },
    PrematureTermination,
}

impl View for RunError {
    type V = Failure;

    open spec fn view(&self) -> Failure {
        match self {
            RunError::InvalidPattern { pattern, error } => Failure::InvalidPattern {
                pattern: pattern@,
                error: *error,
            },
            RunError::Launch { reason } => Failure::Launch { reason: reason@ },
            RunError::Transport { cause } => Failure::Transport { cause: cause@ },
            RunError::NamelessCase => Failure::NamelessCase,
            RunError::Execution { cause } => Failure::Execution { cause: cause@ },
            RunError::PrematureTermination => Failure::PrematureTermination,
        }
    }
}

/// The message about a pattern that was turned down for `reason`: the
/// pattern in quotes, and the reason on a line of its own.
pub open spec fn invalid_pattern_text(pattern: Seq<char>, reason: Seq<char>) -> Seq<char> {
    "invalid regex for tests: \""@ + pattern + "\"\n"@ + reason
}

/// The message that reports `failure` to the user.
pub open spec fn failure_message(failure: Failure) -> Seq<char> {
    match failure {
        Failure::InvalidPattern { pattern, error } => invalid_pattern_text(
            pattern,
            shown_error(error),
        ),
        Failure::Launch { reason } => "error launching test: "@ + reason,
        Failure::Transport { cause } => cause,
        Failure::NamelessCase => "Test suite reported a test case without a name."@,
        Failure::Execution { cause } => "Error running test: "@ + cause,
        Failure::PrematureTermination => "Test run finished prematurely. Something went wrong."@,
    }
}

/// The message about a pattern that was turned down for `reason`.
pub fn invalid_pattern_message(pattern: &str, reason: &str) -> (text: String)
    ensures
        text@ == invalid_pattern_text(pattern@, reason@),
{
    let mut text = String::from_str("invalid regex for tests: \"");
    text.append(pattern);
    text.append("\"\n");
    text.append(reason);
    text
}

impl RunError {
    /// The message that reports this failure to the user.
    pub fn message(&self) -> (text: String)
        ensures
            text@ == failure_message(self@),
    {
        match self {
            RunError::InvalidPattern { pattern, error } => invalid_pattern_message(
                pattern.as_str(),
                error_text(error).as_str(),
            ),
            RunError::Launch { reason } => {
                let mut text = String::from_str("error launching test: ");
                text.append(reason.as_str());
                text
            },
            RunError::Transport { cause } => cause.clone(),
            RunError::NamelessCase => String::from_str(
                "Test suite reported a test case without a name.",
            ),
            RunError::Execution { cause } => {
                let mut text = String::from_str("Error running test: ");
                text.append(cause.as_str());
                text
            },
            RunError::PrematureTermination => String::from_str(
                "Test run finished prematurely. Something went wrong.",
            ),
        }
    }
}

} // verus!
