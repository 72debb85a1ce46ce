//! Retry context payload emitted before a retry sleep.

use std::time::Duration;
use vstd::prelude::*;

verus! {

/// Context emitted before a retry sleep.
///
/// Carries retry metadata while the triggering failure is passed separately to
/// retry listeners.
#[derive(Debug, Clone, Copy, PartialEq, Eq)]
pub struct RetryContext {
    /// Attempt that just failed.
    pub attempt: u32,
    /// Configured maximum attempts.
    pub max_attempts: u32,
    /// Elapsed time observed before sleeping.
    pub elapsed: Duration,
    /// Delay that will be slept before the next attempt.
    pub next_delay: Duration,
}

} // verus!
