//! Retry context constructor payload.

use std::time::Duration;
use vstd::prelude::*;

verus! {

/// Constructor payload for a [`crate::RetryContext`].
#[derive(Debug, Clone, Copy)]
pub struct RetryContextParts {
    /// Current attempt number, or zero if no attempt has run.
    pub attempt: u32,
    /// Configured maximum attempts.
    pub max_attempts: u32,
    /// Configured maximum cumulative user operation time.
    pub max_operation_elapsed: Option<Duration>,
    /// Configured maximum total retry-flow elapsed time.
    pub max_total_elapsed: Option<Duration>,
    /// Cumulative user operation time consumed by this retry flow.
    pub operation_elapsed: Duration,
    /// Total monotonic time consumed by this retry flow.
    pub total_elapsed: Duration,
    /// Elapsed time spent in the current attempt.
    pub attempt_elapsed: Duration,
    /// Effective timeout configured for the current attempt.
    pub attempt_timeout: Option<Duration>,
}

} // verus!
