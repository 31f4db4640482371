//! Classifying what happened when the finished invocation was run.
//!
//! Spawning and waiting are input/output and live outside this library;
//! the caller reports back whether the spawn succeeded and, if the child
//! terminated, with which exit code. This module fixes how those raw
//! observations become a typed outcome.
use vstd::prelude::*;

use crate::error::ChaperoneError;

verus! {

/// How a run ended: the child exited with a code, or it was terminated
/// without producing one (for instance by a signal).
#[derive(Debug, PartialEq)]
pub enum ExecutionOutcome {
    Exited(i32),
    Interrupted,
}

/// Turns the raw observations of a run into its outcome. A failed spawn
/// is the user-facing `CommandNotFound` carrying the executable's name —
/// never a bare input/output error. After a successful spawn the child's
/// exit code is forwarded unchanged; termination without an exit code is
/// reported as `Interrupted`, never coerced into a success.
pub fn run_outcome(command_name: &String, spawn_succeeded: bool, exit_code: Option<i32>) -> (r:
    Result<ExecutionOutcome, ChaperoneError>)
    ensures
        !spawn_succeeded ==> (r matches Err(ChaperoneError::CommandNotFound(n)) && n@
            == command_name@),
        spawn_succeeded ==> match exit_code {
            Some(c) => r == Ok::<ExecutionOutcome, ChaperoneError>(ExecutionOutcome::Exited(c)),
            None => r == Ok::<ExecutionOutcome, ChaperoneError>(ExecutionOutcome::Interrupted),
        },
{
    if !spawn_succeeded {
        return Err(ChaperoneError::CommandNotFound(command_name.clone()));
    }
    match exit_code {
        Some(c) => Ok(ExecutionOutcome::Exited(c)),
        None => Ok(ExecutionOutcome::Interrupted),
    }
}

} // verus!
