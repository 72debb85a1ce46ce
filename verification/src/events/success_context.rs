//! Success context payload.

use std::time::Duration;
use vstd::prelude::*;

verus! {

/// Context emitted when an operation succeeds.
///
/// The context contains execution metadata only; it does not borrow or clone
/// the successful result value.
#[derive(Debug, Clone, Copy, PartialEq, Eq)]
pub struct SuccessContext {
    /// Number of attempts that were executed.
    pub attempts: u32,
    /// Total elapsed time observed by the retry executor.
    pub elapsed: Duration,
}

} // verus!
