//! Event triggered when an operation ultimately fails.

use std::time::Duration;
use vstd::prelude::*;

use crate::duration::{duration_nanos, zero};

verus! {

/// Event triggered when all retry attempts have been exhausted: the error or
/// result of the last failure, the total attempt count and the total time
/// from start to failure.
///
/// `T` is the operation's value type; `X` is the error payload, by default a
/// boxed error.
#[derive(Debug)]
pub struct FailureEvent<T, X = Box<dyn std::error::Error + Send + Sync>> {
    last_error: Option<X>,
    last_result: Option<T>,
    attempt_count: u32,
    total_duration: Duration,
}

impl<T, X> View for FailureEvent<T, X> {
    /// `(last_error, last_result, attempt_count, total_duration)`.
    type V = (Option<X>, Option<T>, u32, Duration);

    closed spec fn view(&self) -> (Option<X>, Option<T>, u32, Duration) {
        (self.last_error, self.last_result, self.attempt_count, self.total_duration)
    }
}

impl<T, X> FailureEvent<T, X> {
    /// Creates a builder for a failure event.
    pub fn builder() -> (r: FailureEventBuilder<T, X>)
        ensures
            r@.0 is None,
            r@.1 is None,
            r@.2 == 0,
            duration_nanos(r@.3) == 0,
    {
        FailureEventBuilder::new()
    }

    /// Returns the error of the last failure, if it was an error.
    pub fn last_error(&self) -> (r: Option<&X>)
        ensures
            r is Some <==> self@.0 is Some,
            r matches Some(x) ==> self@.0 == Some(*x),
    {
        match &self.last_error {
            Some(x) => Some(x),
            None => None,
        }
    }

    /// Returns the result of the last failure, if it had a value.
    pub fn last_result(&self) -> (r: Option<&T>)
        ensures
            r is Some <==> self@.1 is Some,
            r matches Some(v) ==> self@.1 == Some(*v),
    {
        match &self.last_result {
            Some(v) => Some(v),
            None => None,
        }
    }

    /// Returns the total attempt count before failure.
    pub fn attempt_count(&self) -> (r: u32)
        ensures
            r == self@.2,
    {
        self.attempt_count
    }

    /// Returns the total time from the first attempt until failure.
    pub fn total_duration(&self) -> (r: Duration)
        ensures
            r == self@.3,
    {
        self.total_duration
    }
}

/// Builder for [`FailureEvent`] with optional error and result.
#[derive(Debug)]
pub struct FailureEventBuilder<T, X = Box<dyn std::error::Error + Send + Sync>> {
    last_error: Option<X>,
    last_result: Option<T>,
    attempt_count: u32,
    total_duration: Duration,
}

impl<T, X> View for FailureEventBuilder<T, X> {
    /// `(last_error, last_result, attempt_count, total_duration)`.
    type V = (Option<X>, Option<T>, u32, Duration);

    closed spec fn view(&self) -> (Option<X>, Option<T>, u32, Duration) {
        (self.last_error, self.last_result, self.attempt_count, self.total_duration)
    }
}

impl<T, X> FailureEventBuilder<T, X> {
    /// Creates a builder with no error, no result, zero attempts and zero
    /// duration.
    pub fn new() -> (r: Self)
        ensures
            r@.0 is None,
            r@.1 is None,
            r@.2 == 0,
            duration_nanos(r@.3) == 0,
    {
        FailureEventBuilder { last_error: None, last_result: None, attempt_count: 0, total_duration: zero() }
    }

    /// Sets the error from the last failure.
    pub fn last_error(self, last_error: Option<X>) -> (r: Self)
        ensures
            r@ == (last_error, self@.1, self@.2, self@.3),
    {
        FailureEventBuilder { last_error, ..self }
    }

    /// Sets the result from the last failure.
    pub fn last_result(self, last_result: Option<T>) -> (r: Self)
        ensures
            r@ == (self@.0, last_result, self@.2, self@.3),
    {
        FailureEventBuilder { last_result, ..self }
    }

    /// Sets the total attempt count.
    pub fn attempt_count(self, attempt_count: u32) -> (r: Self)
        ensures
            r@ == (self@.0, self@.1, attempt_count, self@.3),
    {
        FailureEventBuilder { attempt_count, ..self }
    }

    /// Sets the total time from start to failure.
    pub fn total_duration(self, total_duration: Duration) -> (r: Self)
        ensures
            r@ == (self@.0, self@.1, self@.2, total_duration),
    {
        FailureEventBuilder { total_duration, ..self }
    }

    /// Builds the event with the configured values.
    pub fn build(self) -> (r: FailureEvent<T, X>)
        ensures
            r@ == self@,
    {
        FailureEvent {
            last_error: self.last_error,
            last_result: self.last_result,
            attempt_count: self.attempt_count,
            total_duration: self.total_duration,
        }
    }
}

} // verus!
