//! The answer to the request that starts a suite.

use crate::error::{Failure, RunError};
use vstd::prelude::*;

verus! {

/// Why a suite did not start.
#[derive(Clone, Debug, PartialEq, Eq)]
pub enum LaunchFailure {
    /// The remote side refused to start the suite, for this reason.
    Refused(String),
    /// The request did not get through.
    Transport(String),
}

/// The failure that a suite that did not start is reported with.
pub open spec fn launch_failure(failure: LaunchFailure) -> Failure {
    match failure {
        LaunchFailure::Refused(reason) => Failure::Launch { reason: reason@ },
        LaunchFailure::Transport(cause) => Failure::Transport { cause: cause@ },
    }
}

/// Reads the answer to the launch request: nothing is wrong if the suite
/// started, and the matching failure is reported if it did not.
pub fn check_launch(reply: Result<(), LaunchFailure>) -> (outcome: Result<(), RunError>)
    ensures
        match reply {
            Ok(_) => outcome is Ok,
            Err(failure) => outcome matches Err(error) && error@ == launch_failure(failure),
        },
{
    match reply {
        Ok(_) => Ok(()),
        Err(LaunchFailure::Refused(reason)) => Err(RunError::Launch { reason }),
        Err(LaunchFailure::Transport(cause)) => Err(RunError::Transport { cause }),
    }
}

} // verus!
