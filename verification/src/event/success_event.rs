//! Event triggered when an operation completes successfully.

use std::time::Duration;
use vstd::prelude::*;

use crate::duration::{duration_nanos, zero};

verus! {

/// Event triggered when an operation completes successfully: the result, the
/// number of attempts and the total time from start to success.
///
/// Built with [`SuccessEventBuilder`], which requires the result.
#[derive(Debug)]
pub struct SuccessEvent<T> {
    result: T,
    attempt_count: u32,
    total_duration: Duration,
}

impl<T> View for SuccessEvent<T> {
    /// `(result, attempt_count, total_duration)`.
    type V = (T, u32, Duration);

    closed spec fn view(&self) -> (T, u32, Duration) {
        (self.result, self.attempt_count, self.total_duration)
    }
}

impl<T> SuccessEvent<T> {
    /// Creates a builder for a success event.
    pub fn builder() -> (r: SuccessEventBuilder<T>)
        ensures
            r@.0 is None,
            r@.1 == 0,
            duration_nanos(r@.2) == 0,
    {
        SuccessEventBuilder::new()
    }

    /// Returns the successful result.
    pub fn result(&self) -> (r: &T)
        ensures
            *r == self@.0,
    {
        &self.result
    }

    /// Returns the number of attempts made.
    pub fn attempt_count(&self) -> (r: u32)
        ensures
            r == self@.1,
    {
        self.attempt_count
    }

    /// Returns the total time from the first attempt until success.
    pub fn total_duration(&self) -> (r: Duration)
        ensures
            r == self@.2,
    {
        self.total_duration
    }
}

/// Builder for [`SuccessEvent`]. The result must be set before building.
#[derive(Debug)]
pub struct SuccessEventBuilder<T> {
    result: Option<T>,
    attempt_count: u32,
    total_duration: Duration,
}

impl<T> View for SuccessEventBuilder<T> {
    /// `(result, attempt_count, total_duration)`.
    type V = (Option<T>, u32, Duration);

    closed spec fn view(&self) -> (Option<T>, u32, Duration) {
        (self.result, self.attempt_count, self.total_duration)
    }
}

impl<T> SuccessEventBuilder<T> {
    /// Creates a builder with no result, zero attempts and zero duration.
    pub fn new() -> (r: Self)
        ensures
            r@.0 is None,
            r@.1 == 0,
            duration_nanos(r@.2) == 0,
    {
        SuccessEventBuilder { result: None, attempt_count: 0, total_duration: zero() }
    }

    /// Sets the successful result.
    pub fn result(self, result: T) -> (r: Self)
        ensures
            r@ == (Some(result), self@.1, self@.2),
    {
        SuccessEventBuilder { result: Some(result), ..self }
    }

    /// Sets the number of attempts.
    pub fn attempt_count(self, attempt_count: u32) -> (r: Self)
        ensures
            r@ == (self@.0, attempt_count, self@.2),
    {
        SuccessEventBuilder { attempt_count, ..self }
    }

    /// Sets the total time from start to success.
    pub fn total_duration(self, total_duration: Duration) -> (r: Self)
        ensures
            r@ == (self@.0, self@.1, total_duration),
    {
        SuccessEventBuilder { total_duration, ..self }
    }

    /// Builds the event; the result must have been set.
    pub fn build(self) -> (r: SuccessEvent<T>)
        requires
            self@.0 is Some,
        ensures
            r@ == (self@.0.unwrap(), self@.1, self@.2),
    {
        SuccessEvent {
            result: self.result.unwrap(),
            attempt_count: self.attempt_count,
            total_duration: self.total_duration,
        }
    }
}

} // verus!
