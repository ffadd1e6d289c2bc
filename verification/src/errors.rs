//! Error handling for the engine.
//!
//! Failures travel on the error arm of a two-armed result. `RahmenError`
//! names the cause; `RunControl` is the signal the scheduler acts on: a
//! recoverable failure is `Suppressed` (retried inside the loader, never
//! visible downstream) and everything else is `Terminate`.

use vstd::prelude::*;

verus! {

/// Error causes inside the engine.
#[derive(Clone, Debug)]
pub enum RahmenError {
    /// A case name in the configuration could not be recognised.
    CaseUnknown(String),
    /// A recoverable condition: the current item is skipped and the next is tried.
    Retry,
    /// A fatal condition: the schedule stops.
    Terminate,
}

/// Result type for `RahmenError`.
pub type RahmenResult<T> = Result<T, RahmenError>;

/// Control signal for the scheduler: stop the run, or keep running.
#[derive(Clone, Copy, Debug, PartialEq, Eq, Structural)]
pub enum RunControl {
    /// Stop stream processing; the run is over.
    Terminate,
    /// A failure was absorbed; stream processing continues.
    Suppressed,
}

/// Result type carrying a `RunControl` signal on its error arm.
pub type RunResult<T> = Result<T, RunControl>;

/// Treat an absent value or any error as fatal: an exhausted source and a
/// failed operation both end the run.
pub fn fatal_err<T>(result: RahmenResult<Option<T>>) -> (r: RunResult<T>)
    ensures
        r == (match result {
            Ok(Some(t)) => Ok::<T, RunControl>(t),
            Ok(None) => Err::<T, RunControl>(RunControl::Terminate),
            Err(_) => Err::<T, RunControl>(RunControl::Terminate),
        }),
{
    match result {
        Ok(Some(t)) => Ok(t),
        Ok(None) => Err(RunControl::Terminate),
        Err(_) => Err(RunControl::Terminate),
    }
}

/// Absorb any error into a `Suppressed` signal, so that stream processing
/// can go on after a recoverable failure.
pub fn suppress_err<T>(result: RahmenResult<T>) -> (r: RunResult<T>)
    ensures
        r == (match result {
            Ok(t) => Ok::<T, RunControl>(t),
            Err(_) => Err::<T, RunControl>(RunControl::Suppressed),
        }),
{
    match result {
        Ok(t) => Ok(t),
        Err(_) => Err(RunControl::Suppressed),
    }
}

} // verus!
