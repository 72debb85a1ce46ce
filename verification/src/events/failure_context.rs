//! Failure context payload.

use std::time::Duration;
use vstd::prelude::*;

verus! {

/// Context emitted when retry limits are exhausted.
///
/// Carries failure metadata while the final failure payload is passed
/// separately to failure listeners.
#[derive(Debug, Clone, Copy, PartialEq, Eq)]
pub struct FailureContext {
    /// Number of attempts that were executed.
    pub attempts: u32,
    /// Total elapsed time observed by the retry executor.
    pub elapsed: Duration,
}

} // verus!
