//! Event triggered when an operation fails and is about to be retried.

use std::time::Duration;
use vstd::prelude::*;

use crate::duration::{duration_nanos, zero};

verus! {

/// Event triggered when an operation fails and is about to be retried: the
/// attempt count, the maximum attempts, the error or result of the failure,
/// the delay before the next attempt and the total time so far.
///
/// `T` is the operation's value type; `X` is the error payload, by default a
/// boxed error.
#[derive(Debug)]
pub struct RetryEvent<T, X = Box<dyn std::error::Error + Send + Sync>> {
    attempt_count: u32,
    max_attempts: u32,
    last_error: Option<X>,
    last_result: Option<T>,
    next_delay: Duration,
    total_duration: Duration,
}

/// Mathematical content of a [`RetryEvent`] or [`RetryEventBuilder`].
pub struct RetryEventView<T, X> {
    /// Attempts made so far.
    pub attempt_count: u32,
    /// Maximum attempts allowed.
    pub max_attempts: u32,
    /// Error of the failure, if it was an error.
    pub last_error: Option<X>,
    /// Result of the failure, if it had a value.
    pub last_result: Option<T>,
    /// Delay before the next attempt.
    pub next_delay: Duration,
    /// Total time so far.
    pub total_duration: Duration,
}

impl<T, X> View for RetryEvent<T, X> {
    type V = RetryEventView<T, X>;

    closed spec fn view(&self) -> RetryEventView<T, X> {
        RetryEventView {
            attempt_count: self.attempt_count,
            max_attempts: self.max_attempts,
            last_error: self.last_error,
            last_result: self.last_result,
            next_delay: self.next_delay,
            total_duration: self.total_duration,
        }
    }
}

impl<T, X> RetryEvent<T, X> {
    /// Creates a builder for a retry event.
    pub fn builder() -> (r: RetryEventBuilder<T, X>)
        ensures
            r@.attempt_count == 0,
            r@.max_attempts == 0,
            r@.last_error is None,
            r@.last_result is None,
            duration_nanos(r@.next_delay) == 0,
            duration_nanos(r@.total_duration) == 0,
    {
        RetryEventBuilder::new()
    }

    /// Returns the number of attempts made so far.
    pub fn attempt_count(&self) -> (r: u32)
        ensures
            r == self@.attempt_count,
    {
        self.attempt_count
    }

    /// Returns the maximum number of attempts.
    pub fn max_attempts(&self) -> (r: u32)
        ensures
            r == self@.max_attempts,
    {
        self.max_attempts
    }

    /// Returns the error of the failure, if it was an error.
    pub fn last_error(&self) -> (r: Option<&X>)
        ensures
            r is Some <==> self@.last_error is Some,
            r matches Some(x) ==> self@.last_error == Some(*x),
    {
        match &self.last_error {
            Some(x) => Some(x),
            None => None,
        }
    }

    /// Returns the result of the failure, if it had a value.
    pub fn last_result(&self) -> (r: Option<&T>)
        ensures
            r is Some <==> self@.last_result is Some,
            r matches Some(v) ==> self@.last_result == Some(*v),
    {
        match &self.last_result {
            Some(v) => Some(v),
            None => None,
        }
    }

    /// Returns the delay before the next attempt.
    pub fn next_delay(&self) -> (r: Duration)
        ensures
            r == self@.next_delay,
    {
        self.next_delay
    }

    /// Returns the total time so far.
    pub fn total_duration(&self) -> (r: Duration)
        ensures
            r == self@.total_duration,
    {
        self.total_duration
    }

    /// Returns whether attempts remain: the attempt count is below the
    /// maximum.
    pub fn has_remaining_attempts(&self) -> (r: bool)
        ensures
            r == (self@.attempt_count < self@.max_attempts),
    {
        self.attempt_count < self.max_attempts
    }
}

/// Builder for [`RetryEvent`].
#[derive(Debug)]
pub struct RetryEventBuilder<T, X = Box<dyn std::error::Error + Send + Sync>> {
    attempt_count: u32,
    max_attempts: u32,
    last_error: Option<X>,
    last_result: Option<T>,
    next_delay: Duration,
    total_duration: Duration,
}

impl<T, X> View for RetryEventBuilder<T, X> {
    type V = RetryEventView<T, X>;

    closed spec fn view(&self) -> RetryEventView<T, X> {
        RetryEventView {
            attempt_count: self.attempt_count,
            max_attempts: self.max_attempts,
            last_error: self.last_error,
            last_result: self.last_result,
            next_delay: self.next_delay,
            total_duration: self.total_duration,
        }
    }
}

impl<T, X> RetryEventBuilder<T, X> {
    /// Creates a builder with zero counts, no error or result and zero
    /// durations.
    pub fn new() -> (r: Self)
        ensures
            r@.attempt_count == 0,
            r@.max_attempts == 0,
            r@.last_error is None,
            r@.last_result is None,
            duration_nanos(r@.next_delay) == 0,
            duration_nanos(r@.total_duration) == 0,
    {
        RetryEventBuilder {
            attempt_count: 0,
            max_attempts: 0,
            last_error: None,
            last_result: None,
            next_delay: zero(),
            total_duration: zero(),
        }
    }

    /// Sets the number of attempts made.
    pub fn attempt_count(self, attempt_count: u32) -> (r: Self)
        ensures
            r@ == apply_retry_event_setter(self@, RetryEventSetter::AttemptCount(attempt_count)),
    {
        RetryEventBuilder { attempt_count, ..self }
    }

    /// Sets the maximum number of attempts.
    pub fn max_attempts(self, max_attempts: u32) -> (r: Self)
        ensures
            r@ == apply_retry_event_setter(self@, RetryEventSetter::MaxAttempts(max_attempts)),
    {
        RetryEventBuilder { max_attempts, ..self }
    }

    /// Sets the error of the failure.
    pub fn last_error(self, last_error: Option<X>) -> (r: Self)
        ensures
            r@ == apply_retry_event_setter(self@, RetryEventSetter::LastError(last_error)),
    {
        RetryEventBuilder { last_error, ..self }
    }

    /// Sets the result of the failure.
    pub fn last_result(self, last_result: Option<T>) -> (r: Self)
        ensures
            r@ == apply_retry_event_setter(self@, RetryEventSetter::LastResult(last_result)),
    {
        RetryEventBuilder { last_result, ..self }
    }

    /// Sets the delay before the next attempt.
    pub fn next_delay(self, next_delay: Duration) -> (r: Self)
        ensures
            r@ == apply_retry_event_setter(self@, RetryEventSetter::NextDelay(next_delay)),
    {
        RetryEventBuilder { next_delay, ..self }
    }

    /// Sets the total time so far.
    pub fn total_duration(self, total_duration: Duration) -> (r: Self)
        ensures
            r@ == apply_retry_event_setter(self@, RetryEventSetter::TotalDuration(total_duration)),
    {
        RetryEventBuilder { total_duration, ..self }
    }

    /// Builds the event with the configured values.
    pub fn build(self) -> (r: RetryEvent<T, X>)
        ensures
            r@ == self@,
    {
        RetryEvent {
            attempt_count: self.attempt_count,
            max_attempts: self.max_attempts,
            last_error: self.last_error,
            last_result: self.last_result,
            next_delay: self.next_delay,
            total_duration: self.total_duration,
        }
    }
}

impl<T, X> Default for RetryEventBuilder<T, X> {
    /// Same as [`RetryEventBuilder::new`].
    fn default() -> (r: Self)
        ensures
            r@.attempt_count == 0,
            r@.max_attempts == 0,
            r@.last_error is None,
            r@.last_result is None,
            duration_nanos(r@.next_delay) == 0,
            duration_nanos(r@.total_duration) == 0,
    {
        Self::new()
    }
}

/// One setter call on a [`RetryEventBuilder`], to state what a sequence of
/// calls builds.
pub enum RetryEventSetter<T, X> {
    /// [`RetryEventBuilder::attempt_count`].
    AttemptCount(u32),
    /// [`RetryEventBuilder::max_attempts`].
    MaxAttempts(u32),
    /// [`RetryEventBuilder::last_error`].
    LastError(Option<X>),
    /// [`RetryEventBuilder::last_result`].
    LastResult(Option<T>),
    /// [`RetryEventBuilder::next_delay`].
    NextDelay(Duration),
    /// [`RetryEventBuilder::total_duration`].
    TotalDuration(Duration),
}

/// The builder content after one setter call: the named field replaced.
pub open spec fn apply_retry_event_setter<T, X>(
    v: RetryEventView<T, X>,
    s: RetryEventSetter<T, X>,
) -> RetryEventView<T, X> {
    match s {
        RetryEventSetter::AttemptCount(attempt_count) => RetryEventView { attempt_count, ..v },
        RetryEventSetter::MaxAttempts(max_attempts) => RetryEventView { max_attempts, ..v },
        RetryEventSetter::LastError(last_error) => RetryEventView { last_error, ..v },
        RetryEventSetter::LastResult(last_result) => RetryEventView { last_result, ..v },
        RetryEventSetter::NextDelay(next_delay) => RetryEventView { next_delay, ..v },
        RetryEventSetter::TotalDuration(total_duration) => RetryEventView { total_duration, ..v },
    }
}

/// The builder content after the setter calls `calls`, in order.
pub open spec fn apply_retry_event_setters<T, X>(
    v: RetryEventView<T, X>,
    calls: Seq<RetryEventSetter<T, X>>,
) -> RetryEventView<T, X>
    decreases calls.len(),
{
    if calls.len() == 0 {
        v
    } else {
        apply_retry_event_setter(apply_retry_event_setters(v, calls.drop_last()), calls.last())
    }
}

/// The argument of the last call in `calls` that `pick` selects, or
/// `default` when there is none.
pub open spec fn last_call_argument<T, X, A>(
    calls: Seq<RetryEventSetter<T, X>>,
    pick: spec_fn(RetryEventSetter<T, X>) -> Option<A>,
    default: A,
) -> A
    decreases calls.len(),
{
    if calls.len() == 0 {
        default
    } else {
        match pick(calls.last()) {
            Some(a) => a,
            None => last_call_argument(calls.drop_last(), pick, default),
        }
    }
}

/// The argument of an `attempt_count` call.
pub open spec fn attempt_count_argument<T, X>(s: RetryEventSetter<T, X>) -> Option<u32> {
    match s {
        RetryEventSetter::AttemptCount(n) => Some(n),
        _ => None,
    }
}

/// The argument of a `max_attempts` call.
pub open spec fn max_attempts_argument<T, X>(s: RetryEventSetter<T, X>) -> Option<u32> {
    match s {
        RetryEventSetter::MaxAttempts(n) => Some(n),
        _ => None,
    }
}

/// The argument of a `last_error` call.
pub open spec fn last_error_argument<T, X>(s: RetryEventSetter<T, X>) -> Option<Option<X>> {
    match s {
        RetryEventSetter::LastError(e) => Some(e),
        _ => None,
    }
}

/// The argument of a `last_result` call.
pub open spec fn last_result_argument<T, X>(s: RetryEventSetter<T, X>) -> Option<Option<T>> {
    match s {
        RetryEventSetter::LastResult(v) => Some(v),
        _ => None,
    }
}

/// The argument of a `next_delay` call.
pub open spec fn next_delay_argument<T, X>(s: RetryEventSetter<T, X>) -> Option<Duration> {
    match s {
        RetryEventSetter::NextDelay(d) => Some(d),
        _ => None,
    }
}

/// The argument of a `total_duration` call.
pub open spec fn total_duration_argument<T, X>(s: RetryEventSetter<T, X>) -> Option<Duration> {
    match s {
        RetryEventSetter::TotalDuration(d) => Some(d),
        _ => None,
    }
}

/// After any sequence of setter calls on a retry event builder, each field
/// holds the argument of the last call to its setter, or its value before
/// the calls (for a builder from [`RetryEventBuilder::new`]: zero counts, no
/// error or result, zero durations) when that setter was never called. The
/// setters, [`RetryEventBuilder::build`] and the getters have no
/// precondition, so no such sequence fails.
pub proof fn law_retry_event_builder_last_call_wins<T, X>(
    initial: RetryEventView<T, X>,
    calls: Seq<RetryEventSetter<T, X>>,
)
    ensures
        ({
            let v = apply_retry_event_setters(initial, calls);
            &&& v.attempt_count == last_call_argument(
                calls,
                |s: RetryEventSetter<T, X>| attempt_count_argument(s),
                initial.attempt_count,
            )
            &&& v.max_attempts == last_call_argument(
                calls,
                |s: RetryEventSetter<T, X>| max_attempts_argument(s),
                initial.max_attempts,
            )
            &&& v.last_error == last_call_argument(
                calls,
                |s: RetryEventSetter<T, X>| last_error_argument(s),
                initial.last_error,
            )
            &&& v.last_result == last_call_argument(
                calls,
                |s: RetryEventSetter<T, X>| last_result_argument(s),
                initial.last_result,
            )
            &&& v.next_delay == last_call_argument(
                calls,
                |s: RetryEventSetter<T, X>| next_delay_argument(s),
                initial.next_delay,
            )
            &&& v.total_duration == last_call_argument(
                calls,
                |s: RetryEventSetter<T, X>| total_duration_argument(s),
                initial.total_duration,
            )
        }),
    decreases calls.len(),
{
    if calls.len() > 0 {
        law_retry_event_builder_last_call_wins(initial, calls.drop_last());
    }
}

} // verus!
