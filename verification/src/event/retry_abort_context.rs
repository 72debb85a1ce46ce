//! Abort context payload.

use std::time::Duration;
use vstd::prelude::*;

verus! {

/// Context emitted when the retry decider aborts the operation.
///
/// Carries abort metadata while the triggering failure is passed separately to
/// abort listeners.
#[derive(Debug, Clone, Copy, PartialEq, Eq)]
pub struct RetryAbortContext {
    /// Number of attempts that were executed.
    pub attempts: u32,
    /// Total elapsed time observed by the retry executor.
    pub elapsed: Duration,
}

} // verus!
