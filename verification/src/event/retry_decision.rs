//! Retry decisions returned by a retry decider.

use vstd::prelude::*;

verus! {

/// Decision returned by a retry decider after inspecting an error.
///
/// The decision is advisory for retrying: [`RetryDecision::Retry`] still obeys
/// attempt and elapsed-time limits.
#[derive(Debug, Clone, Copy, PartialEq, Eq, Structural)]
pub enum RetryDecision {
    /// Retry the operation if limits still allow it.
    Retry,
    /// Abort immediately and return the current failure.
    Abort,
}

} // verus!
