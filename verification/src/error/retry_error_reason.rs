//! Terminal retry-flow error reasons.

use vstd::prelude::*;

verus! {

/// Reason why the whole retry flow stopped with an error.
#[derive(Debug, Clone, Copy, PartialEq, Eq, Structural)]
pub enum RetryErrorReason {
    /// A listener or retry policy aborted the retry flow.
    Aborted,
    /// No attempts remain.
    AttemptsExceeded,
    /// The cumulative user operation elapsed-time budget was exhausted.
    MaxOperationElapsedExceeded,
    /// The total monotonic retry-flow elapsed-time budget was exhausted.
    MaxTotalElapsedExceeded,
    /// The operation mode does not support the configured behavior.
    ///
    /// Used when the synchronous, non-isolated run mode receives a configured
    /// per-attempt timeout, which it cannot enforce.
    UnsupportedOperation,
    /// A timed-out blocking worker did not exit within the cancellation grace period.
    WorkerStillRunning,
}

} // verus!
