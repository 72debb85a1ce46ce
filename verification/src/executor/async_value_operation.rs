//! Adapter that keeps the successful value of an asynchronous operation
//! outside the value-erased retry loop.

use vstd::prelude::*;

use crate::error::AttemptFailure;

verus! {

/// Adapter that stores the successful value of an asynchronous operation.
///
/// The driver awaits the future produced by [`AsyncValueOperation::operation`]
/// and hands its output to [`AsyncValueOperation::record`].
pub struct AsyncValueOperation<T, F> {
    operation: F,
    value: Option<T>,
}

impl<T, F> AsyncValueOperation<T, F> {
    /// The value captured so far.
    pub closed spec fn captured(&self) -> Option<T> {
        self.value
    }

    /// The wrapped operation factory.
    pub closed spec fn operation_spec(&self) -> F {
        self.operation
    }

    /// Creates an adapter with no captured value.
    pub fn new(operation: F) -> (r: Self)
        ensures
            r.captured() is None,
            r.operation_spec() == operation,
    {
        AsyncValueOperation { operation, value: None }
    }

    /// Returns the wrapped operation factory, to start one attempt.
    pub fn operation(&mut self) -> (r: &mut F)
        ensures
            *r == old(self).operation_spec(),
            final(self).operation_spec() == *final(r),
            final(self).captured() == old(self).captured(),
    {
        &mut self.operation
    }

    /// Returns the value captured from a successful operation.
    pub fn into_value(self) -> (r: T)
        requires
            self.captured() is Some,
        ensures
            Some(r) == self.captured(),
    {
        self.value.unwrap()
    }

    /// Records one attempt's result: stores a successful value, or maps the
    /// error to [`AttemptFailure::Error`] and keeps the previous value.
    pub fn record<E>(&mut self, result: Result<T, E>) -> (r: Result<(), AttemptFailure<E>>)
        ensures
            final(self).operation_spec() == old(self).operation_spec(),
            match result {
                Ok(v) => r is Ok && final(self).captured() == Some(v),
                Err(e) => r == Err::<(), AttemptFailure<E>>(AttemptFailure::Error(e)) && final(self).captured()
                    == old(self).captured(),
            },
    {
        match result {
            Ok(value) => {
                self.value = Some(value);
                Ok(())
            },
            Err(error) => Err(AttemptFailure::Error(error)),
        }
    }
}

} // verus!
