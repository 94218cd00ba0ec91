//! Trying again what another program may be in the way of.

use vstd::prelude::*;

verus! {

/// How often something is tried.
pub const ATTEMPTS: u32 = 20;

/// What follows a failed attempt.
#[derive(Debug, Clone, Copy, PartialEq, Eq, Structural)]
pub enum RetryStep {
    /// Try again after this pause.
    Again { pause_ms: u64 },
    /// The last error stands.
    GiveUp,
}

/// What follows the failed attempt `attempt`, counted from 0, to change a file.
pub fn retry_io(attempt: u32) -> (r: RetryStep)
    ensures
        r == (if attempt < ATTEMPTS - 1 {
            RetryStep::Again { pause_ms: 150 }
        } else {
            RetryStep::GiveUp
        }),
{
    if attempt < ATTEMPTS - 1 {
        RetryStep::Again { pause_ms: 150 }
    } else {
        RetryStep::GiveUp
    }
}

/// How an attempt to remove a directory ended.
#[derive(Debug, Clone, Copy, PartialEq, Eq, Structural)]
pub enum RemoveOutcome {
    Removed,
    NotFound,
    Failed,
}

/// What follows an attempt to remove a directory.
#[derive(Debug, Clone, Copy, PartialEq, Eq, Structural)]
pub enum RemoveStep {
    /// The directory is gone.
    Done,
    /// Try again after this pause.
    Again { pause_ms: u64 },
    /// The directory stays.
    GiveUp,
}

/// What follows the attempt `attempt`, counted from 0, to remove a directory. One
/// that is not there counts as removed.
pub fn remove_dir_all_retry(attempt: u32, outcome: RemoveOutcome) -> (r: RemoveStep)
    ensures
        r == (if outcome != RemoveOutcome::Failed {
            RemoveStep::Done
        } else if attempt < ATTEMPTS - 1 {
            RemoveStep::Again { pause_ms: 250 }
        } else {
            RemoveStep::GiveUp
        }),
{
    match outcome {
        RemoveOutcome::Removed | RemoveOutcome::NotFound => RemoveStep::Done,
        RemoveOutcome::Failed => if attempt < ATTEMPTS - 1 {
            RemoveStep::Again { pause_ms: 250 }
        } else {
            RemoveStep::GiveUp
        },
    }
}

} // verus!
