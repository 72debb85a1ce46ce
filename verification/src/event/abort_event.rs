//! Event triggered when an operation is aborted.

use std::time::Duration;
use vstd::prelude::*;

use super::abort_reason::AbortReason;
use crate::duration::{duration_nanos, zero};

verus! {

/// Event triggered when an operation is aborted: the reason, the attempt
/// count at the time of abort and the total time from start to abort.
///
/// Built with [`AbortEventBuilder`], which requires the reason.
#[derive(Debug)]
pub struct AbortEvent<T, X = Box<dyn std::error::Error + Send + Sync>> {
    reason: AbortReason<T, X>,
    attempt_count: u32,
    total_duration: Duration,
}

impl<T, X> View for AbortEvent<T, X> {
    /// `(reason, attempt_count, total_duration)`.
    type V = (AbortReason<T, X>, u32, Duration);

    closed spec fn view(&self) -> (AbortReason<T, X>, u32, Duration) {
        (self.reason, self.attempt_count, self.total_duration)
    }
}

impl<T, X> AbortEvent<T, X> {
    /// Creates a builder for an abort event.
    pub fn builder() -> (r: AbortEventBuilder<T, X>)
        ensures
            r@.0 is None,
            r@.1 == 0,
            duration_nanos(r@.2) == 0,
    {
        AbortEventBuilder::new()
    }

    /// Returns the reason that caused the operation to abort.
    pub fn reason(&self) -> (r: &AbortReason<T, X>)
        ensures
            *r == self@.0,
    {
        &self.reason
    }

    /// Returns the attempt count at the time of abort.
    pub fn attempt_count(&self) -> (r: u32)
        ensures
            r == self@.1,
    {
        self.attempt_count
    }

    /// Returns the total time from the first attempt until abort.
    pub fn total_duration(&self) -> (r: Duration)
        ensures
            r == self@.2,
    {
        self.total_duration
    }
}

/// Builder for [`AbortEvent`]. The reason must be set before building.
#[derive(Debug)]
pub struct AbortEventBuilder<T, X = Box<dyn std::error::Error + Send + Sync>> {
    reason: Option<AbortReason<T, X>>,
    attempt_count: u32,
    total_duration: Duration,
}

impl<T, X> View for AbortEventBuilder<T, X> {
    /// `(reason, attempt_count, total_duration)`.
    type V = (Option<AbortReason<T, X>>, u32, Duration);

    closed spec fn view(&self) -> (Option<AbortReason<T, X>>, u32, Duration) {
        (self.reason, self.attempt_count, self.total_duration)
    }
}

impl<T, X> AbortEventBuilder<T, X> {
    /// Creates a builder with no reason, zero attempts and zero duration.
    pub fn new() -> (r: Self)
        ensures
            r@.0 is None,
            r@.1 == 0,
            duration_nanos(r@.2) == 0,
    {
        AbortEventBuilder { reason: None, attempt_count: 0, total_duration: zero() }
    }

    /// Sets the abort reason.
    pub fn reason(self, reason: AbortReason<T, X>) -> (r: Self)
        ensures
            r@ == (Some(reason), self@.1, self@.2),
    {
        AbortEventBuilder { reason: Some(reason), ..self }
    }

    /// Sets the attempt count at the time of abort.
    pub fn attempt_count(self, attempt_count: u32) -> (r: Self)
        ensures
            r@ == (self@.0, attempt_count, self@.2),
    {
        AbortEventBuilder { attempt_count, ..self }
    }

    /// Sets the total time from start to abort.
    pub fn total_duration(self, total_duration: Duration) -> (r: Self)
        ensures
            r@ == (self@.0, self@.1, total_duration),
    {
        AbortEventBuilder { total_duration, ..self }
    }

    /// Builds the event; the reason must have been set.
    pub fn build(self) -> (r: AbortEvent<T, X>)
        requires
            self@.0 is Some,
        ensures
            r@ == (self@.0.unwrap(), self@.1, self@.2),
    {
        AbortEvent {
            reason: self.reason.unwrap(),
            attempt_count: self.attempt_count,
            total_duration: self.total_duration,
        }
    }
}

impl<T, X> Default for AbortEventBuilder<T, X> {
    /// Same as [`AbortEventBuilder::new`].
    fn default() -> (r: Self)
        ensures
            r@.0 is None,
            r@.1 == 0,
            duration_nanos(r@.2) == 0,
    {
        Self::new()
    }
}

} // verus!
