//! Effective timeout selected for a single attempt.

use std::time::Duration;
use vstd::prelude::*;

use crate::error::AttemptFailure;
use crate::event::AttemptTimeoutSource;

verus! {

/// Effective timeout selected for a single attempt, with the source that
/// selected it.
#[derive(Debug, Clone, Copy, PartialEq, Eq)]
pub struct EffectiveAttemptTimeout {
    /// Timeout duration actually enforced for the attempt.
    pub duration: Option<Duration>,
    /// Source that selected the effective timeout.
    pub source: Option<AttemptTimeoutSource>,
}

/// The effective timeout among the configured attempt timeout and the
/// remaining operation and total budgets, given in nanoseconds: the smallest
/// present bound, with ties going to the configured timeout, then to the
/// operation budget.
pub open spec fn effective_timeout_spec(
    configured: Option<nat>,
    remaining_operation: Option<nat>,
    remaining_total: Option<nat>,
) -> (Option<nat>, Option<AttemptTimeoutSource>) {
    if configured matches Some(c) && (remaining_operation matches Some(o) ==> c <= o) && (
    remaining_total matches Some(t) ==> c <= t) {
        (configured, Some(AttemptTimeoutSource::Configured))
    } else if remaining_operation matches Some(o) && (remaining_total matches Some(t) ==> o <= t) {
        (remaining_operation, Some(AttemptTimeoutSource::MaxOperationElapsed))
    } else if remaining_total matches Some(t) {
        (remaining_total, Some(AttemptTimeoutSource::MaxTotalElapsed))
    } else {
        (None, None)
    }
}

impl EffectiveAttemptTimeout {
    /// Creates an effective attempt timeout.
    pub fn new(duration: Option<Duration>, source: Option<AttemptTimeoutSource>) -> (r: Self)
        ensures
            r.duration == duration,
            r.source == source,
    {
        EffectiveAttemptTimeout { duration, source }
    }

    /// Whether a failure means an elapsed budget was exhausted: the attempt
    /// timed out while the effective timeout came from a remaining elapsed
    /// budget.
    pub open spec fn is_max_elapsed_timeout_spec<E>(self, failure: AttemptFailure<E>) -> bool {
        &&& failure is Timeout
        &&& (self.source == Some(AttemptTimeoutSource::MaxOperationElapsed) || self.source == Some(
            AttemptTimeoutSource::MaxTotalElapsed,
        ))
    }

    /// Returns whether a timeout failure means the elapsed budget was
    /// exhausted.
    pub fn is_max_elapsed_timeout<E>(&self, failure: &AttemptFailure<E>) -> (r: bool)
        ensures
            r == self.is_max_elapsed_timeout_spec(*failure),
    {
        failure.is_timeout() && match self.source {
            Some(AttemptTimeoutSource::MaxOperationElapsed) => true,
            Some(AttemptTimeoutSource::MaxTotalElapsed) => true,
            _ => false,
        }
    }
}

} // verus!
