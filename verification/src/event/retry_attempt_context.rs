//! Attempt context passed to a retry decider.

use std::time::Duration;
use vstd::prelude::*;

verus! {

/// Context visible to a retry decider.
///
/// Values are snapshots taken before the decider is invoked for a failed
/// attempt.
#[derive(Debug, Clone, Copy, PartialEq, Eq)]
pub struct RetryAttemptContext {
    /// Current attempt number, starting at 1.
    pub attempt: u32,
    /// Configured maximum attempts.
    pub max_attempts: u32,
    /// Elapsed time observed before the decider is invoked.
    pub elapsed: Duration,
}

} // verus!
