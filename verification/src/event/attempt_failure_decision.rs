//! Decision returned by an attempt failure listener.

use std::time::Duration;
use vstd::prelude::*;

verus! {

/// Decision an attempt failure listener returns for one failed attempt.
///
/// [`AttemptFailureDecision::UseDefault`] leaves the choice to the retry policy;
/// the other variants override it. Retrying still obeys attempt and
/// elapsed-time limits.
#[derive(Debug, Clone, Copy, PartialEq, Eq)]
pub enum AttemptFailureDecision {
    /// Apply the default policy for this failure.
    UseDefault,
    /// Retry after the policy delay.
    Retry,
    /// Retry after exactly the given delay.
    RetryAfter(Duration),
    /// Stop the retry flow now.
    Abort,
}

impl AttemptFailureDecision {
    /// Returns whether this decision is [`AttemptFailureDecision::UseDefault`].
    pub fn is_use_default(&self) -> (r: bool)
        ensures
            r == (self is UseDefault),
    {
        matches!(self, AttemptFailureDecision::UseDefault)
    }

    /// Returns whether this decision is [`AttemptFailureDecision::Abort`].
    pub fn is_abort(&self) -> (r: bool)
        ensures
            r == (self is Abort),
    {
        matches!(self, AttemptFailureDecision::Abort)
    }
}

} // verus!
