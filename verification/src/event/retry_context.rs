//! Retry event context payload.
//!
//! A retry context is the shared metadata snapshot passed to attempt, failure,
//! and terminal-error listeners.

use std::time::Duration;
use vstd::prelude::*;

use super::attempt_timeout_source::AttemptTimeoutSource;
use super::retry_context_parts::RetryContextParts;
use crate::duration::zero;

verus! {

/// Context emitted for retry lifecycle events.
///
/// `attempt` is one-based for attempt-related events and zero when a retry flow
/// stops before any attempt is executed. `operation_elapsed` is cumulative user
/// operation execution time only; listener and retry-sleep time are excluded.
/// `total_elapsed` is monotonic elapsed time spent in the retry flow and
/// includes operation execution, retry sleep, retry-after sleep, and
/// retry-control listener time. `attempt_elapsed` is set after an attempt
/// completes and is zero before an attempt starts.
#[derive(Debug, Clone, Copy, PartialEq, Eq)]
pub struct RetryContext {
    attempt: u32,
    max_attempts: u32,
    max_operation_elapsed: Option<Duration>,
    max_total_elapsed: Option<Duration>,
    operation_elapsed: Duration,
    total_elapsed: Duration,
    attempt_elapsed: Duration,
    attempt_timeout: Option<Duration>,
    next_delay: Option<Duration>,
    retry_after_hint: Option<Duration>,
    attempt_timeout_source: Option<AttemptTimeoutSource>,
    unreaped_worker_count: u32,
}

/// Mathematical content of a [`RetryContext`].
pub struct RetryContextView {
    /// Current attempt number, or zero if no attempt has run.
    pub attempt: u32,
    /// Configured maximum attempts.
    pub max_attempts: u32,
    /// Configured maximum cumulative user operation time.
    pub max_operation_elapsed: Option<Duration>,
    /// Configured maximum total retry-flow elapsed time.
    pub max_total_elapsed: Option<Duration>,
    /// Cumulative user operation time consumed by this retry flow.
    pub operation_elapsed: Duration,
    /// Total monotonic time consumed by this retry flow.
    pub total_elapsed: Duration,
    /// Elapsed time spent in the current attempt.
    pub attempt_elapsed: Duration,
    /// Effective timeout configured for the current attempt.
    pub attempt_timeout: Option<Duration>,
    /// Delay selected before the next attempt, when known.
    pub next_delay: Option<Duration>,
    /// Retry-after hint extracted before the failure policy runs.
    pub retry_after_hint: Option<Duration>,
    /// Source used for the last selected per-attempt timeout.
    pub attempt_timeout_source: Option<AttemptTimeoutSource>,
    /// Timed-out worker attempts not observed to exit after cancellation.
    pub unreaped_worker_count: u32,
}

impl View for RetryContext {
    type V = RetryContextView;

    closed spec fn view(&self) -> RetryContextView {
        RetryContextView {
            attempt: self.attempt,
            max_attempts: self.max_attempts,
            max_operation_elapsed: self.max_operation_elapsed,
            max_total_elapsed: self.max_total_elapsed,
            operation_elapsed: self.operation_elapsed,
            total_elapsed: self.total_elapsed,
            attempt_elapsed: self.attempt_elapsed,
            attempt_timeout: self.attempt_timeout,
            next_delay: self.next_delay,
            retry_after_hint: self.retry_after_hint,
            attempt_timeout_source: self.attempt_timeout_source,
            unreaped_worker_count: self.unreaped_worker_count,
        }
    }
}

impl RetryContext {
    /// The context that [`RetryContext::from_parts`] builds from `parts`: the
    /// parts' values, with no next delay, no hint, no timeout source and no
    /// unreaped worker.
    pub open spec fn spec_of_parts(parts: RetryContextParts) -> RetryContextView {
        RetryContextView {
            attempt: parts.attempt,
            max_attempts: parts.max_attempts,
            max_operation_elapsed: parts.max_operation_elapsed,
            max_total_elapsed: parts.max_total_elapsed,
            operation_elapsed: parts.operation_elapsed,
            total_elapsed: parts.total_elapsed,
            attempt_elapsed: parts.attempt_elapsed,
            attempt_timeout: parts.attempt_timeout,
            next_delay: None,
            retry_after_hint: None,
            attempt_timeout_source: None,
            unreaped_worker_count: 0,
        }
    }

    /// Creates a retry context snapshot with default timing metadata.
    ///
    /// The result has no elapsed budgets, zero elapsed values, no selected
    /// next delay, no retry-after hint, and no attempt timeout.
    pub fn new(attempt: u32, max_attempts: u32) -> (r: Self)
        ensures
            r@.attempt == attempt,
            r@.max_attempts == max_attempts,
            r@.max_operation_elapsed is None,
            r@.max_total_elapsed is None,
            crate::duration::duration_nanos(r@.operation_elapsed) == 0,
            crate::duration::duration_nanos(r@.total_elapsed) == 0,
            crate::duration::duration_nanos(r@.attempt_elapsed) == 0,
            r@.attempt_timeout is None,
            r@.next_delay is None,
            r@.retry_after_hint is None,
            r@.attempt_timeout_source is None,
            r@.unreaped_worker_count == 0,
    {
        Self::from_parts(RetryContextParts {
            attempt,
            max_attempts,
            max_operation_elapsed: None,
            max_total_elapsed: None,
            operation_elapsed: zero(),
            total_elapsed: zero(),
            attempt_elapsed: zero(),
            attempt_timeout: None,
        })
    }

    /// Creates a retry context snapshot from its parts, with no selected next
    /// delay, retry-after hint, timeout source or unreaped worker.
    pub fn from_parts(parts: RetryContextParts) -> (r: Self)
        ensures
            r@ == Self::spec_of_parts(parts),
            r@.attempt == parts.attempt,
            r@.max_attempts == parts.max_attempts,
            r@.max_operation_elapsed == parts.max_operation_elapsed,
            r@.max_total_elapsed == parts.max_total_elapsed,
            r@.operation_elapsed == parts.operation_elapsed,
            r@.total_elapsed == parts.total_elapsed,
            r@.attempt_elapsed == parts.attempt_elapsed,
            r@.attempt_timeout == parts.attempt_timeout,
    {
        RetryContext {
            attempt: parts.attempt,
            max_attempts: parts.max_attempts,
            max_operation_elapsed: parts.max_operation_elapsed,
            max_total_elapsed: parts.max_total_elapsed,
            operation_elapsed: parts.operation_elapsed,
            total_elapsed: parts.total_elapsed,
            attempt_elapsed: parts.attempt_elapsed,
            attempt_timeout: parts.attempt_timeout,
            next_delay: None,
            retry_after_hint: None,
            attempt_timeout_source: None,
            unreaped_worker_count: 0,
        }
    }

    /// Returns this event's attempt number: one-based, or zero if no attempt
    /// has run.
    pub fn attempt(&self) -> (r: u32)
        ensures
            r == self@.attempt,
    {
        self.attempt
    }

    /// Returns the configured maximum attempts, including the initial attempt.
    pub fn max_attempts(&self) -> (r: u32)
        ensures
            r == self@.max_attempts,
    {
        self.max_attempts
    }

    /// Returns the maximum number of retries after the initial attempt.
    pub fn max_retries(&self) -> (r: u32)
        ensures
            r == if self@.max_attempts == 0 { 0 } else { (self@.max_attempts - 1) as u32 },
    {
        self.max_attempts.saturating_sub(1)
    }

    /// Returns the optional cumulative user operation time budget.
    pub fn max_operation_elapsed(&self) -> (r: Option<Duration>)
        ensures
            r == self@.max_operation_elapsed,
    {
        self.max_operation_elapsed
    }

    /// Returns the optional total retry-flow elapsed time budget.
    pub fn max_total_elapsed(&self) -> (r: Option<Duration>)
        ensures
            r == self@.max_total_elapsed,
    {
        self.max_total_elapsed
    }

    /// Returns cumulative user operation time consumed by the retry flow.
    pub fn operation_elapsed(&self) -> (r: Duration)
        ensures
            r == self@.operation_elapsed,
    {
        self.operation_elapsed
    }

    /// Returns total monotonic time consumed by the retry flow.
    pub fn total_elapsed(&self) -> (r: Duration)
        ensures
            r == self@.total_elapsed,
    {
        self.total_elapsed
    }

    /// Returns elapsed time spent in the current attempt.
    pub fn attempt_elapsed(&self) -> (r: Duration)
        ensures
            r == self@.attempt_elapsed,
    {
        self.attempt_elapsed
    }

    /// Returns the effective timeout configured for the current attempt.
    pub fn attempt_timeout(&self) -> (r: Option<Duration>)
        ensures
            r == self@.attempt_timeout,
    {
        self.attempt_timeout
    }

    /// Returns the source of the current attempt timeout.
    pub fn attempt_timeout_source(&self) -> (r: Option<AttemptTimeoutSource>)
        ensures
            r == self@.attempt_timeout_source,
    {
        self.attempt_timeout_source
    }

    /// Returns the number of worker attempts not observed to exit after
    /// cancellation.
    pub fn unreaped_worker_count(&self) -> (r: u32)
        ensures
            r == self@.unreaped_worker_count,
    {
        self.unreaped_worker_count
    }

    /// Returns the delay selected before the next attempt.
    pub fn next_delay(&self) -> (r: Option<Duration>)
        ensures
            r == self@.next_delay,
    {
        self.next_delay
    }

    /// Returns a retry-after hint extracted from the failure.
    pub fn retry_after_hint(&self) -> (r: Option<Duration>)
        ensures
            r == self@.retry_after_hint,
    {
        self.retry_after_hint
    }

    /// Returns a copy of this context with a selected retry delay.
    pub fn with_next_delay(self, delay: Duration) -> (r: Self)
        ensures
            r@ == (RetryContextView { next_delay: Some(delay), ..self@ }),
    {
        RetryContext { next_delay: Some(delay), ..self }
    }

    /// Returns a copy of this context with refreshed total elapsed time.
    pub fn with_total_elapsed(self, total_elapsed: Duration) -> (r: Self)
        ensures
            r@ == (RetryContextView { total_elapsed, ..self@ }),
    {
        RetryContext { total_elapsed, ..self }
    }

    /// Returns a copy of this context with a retry-after hint.
    pub fn with_retry_after_hint(self, hint: Option<Duration>) -> (r: Self)
        ensures
            r@ == (RetryContextView { retry_after_hint: hint, ..self@ }),
    {
        RetryContext { retry_after_hint: hint, ..self }
    }

    /// Returns a copy of this context with a timeout source; `None` keeps the
    /// current source.
    pub fn with_attempt_timeout_source(self, source: Option<AttemptTimeoutSource>) -> (r: Self)
        ensures
            r@ == (RetryContextView {
                attempt_timeout_source: if source is Some { source } else { self@.attempt_timeout_source },
                ..self@
            }),
    {
        match source {
            Some(source) => RetryContext { attempt_timeout_source: Some(source), ..self },
            None => self,
        }
    }

    /// Returns a copy of this context with an unreaped worker count.
    pub fn with_unreaped_worker_count(self, count: u32) -> (r: Self)
        ensures
            r@ == (RetryContextView { unreaped_worker_count: count, ..self@ }),
    {
        RetryContext { unreaped_worker_count: count, ..self }
    }
}

} // verus!
