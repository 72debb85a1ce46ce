//! Adapter that keeps the successful value of a synchronous operation outside
//! the value-erased retry loop.

use vstd::prelude::*;

use crate::error::AttemptFailure;

verus! {

/// Adapter that stores the successful value of a synchronous operation.
pub struct SyncValueOperation<T, F> {
    operation: F,
    value: Option<T>,
}

impl<T, F> SyncValueOperation<T, F> {
    /// The value captured so far.
    pub closed spec fn captured(&self) -> Option<T> {
        self.value
    }

    /// The wrapped operation.
    pub closed spec fn operation_spec(&self) -> F {
        self.operation
    }

    /// Creates an adapter with no captured value.
    pub fn new(operation: F) -> (r: Self)
        ensures
            r.captured() is None,
            r.operation_spec() == operation,
    {
        SyncValueOperation { operation, value: None }
    }

    /// Returns the value captured from a successful operation.
    pub fn into_value(self) -> (r: T)
        requires
            self.captured() is Some,
        ensures
            Some(r) == self.captured(),
    {
        self.value.unwrap()
    }

    /// Records one attempt's result: stores a successful value, or maps the
    /// error to [`AttemptFailure::Error`] and keeps the previous value.
    pub fn record<E>(&mut self, result: Result<T, E>) -> (r: Result<(), AttemptFailure<E>>)
        ensures
            final(self).operation_spec() == old(self).operation_spec(),
            match result {
                Ok(v) => r is Ok && final(self).captured() == Some(v),
                Err(e) => r == Err::<(), AttemptFailure<E>>(AttemptFailure::Error(e)) && final(self).captured()
                    == old(self).captured(),
            },
    {
        match result {
            Ok(value) => {
                self.value = Some(value);
                Ok(())
            },
            Err(error) => Err(AttemptFailure::Error(error)),
        }
    }

    /// Calls the wrapped operation once and records its result: a value the
    /// operation returned is captured, an error it returned comes back as
    /// [`AttemptFailure::Error`].
    pub fn call<E>(&mut self) -> (r: Result<(), AttemptFailure<E>>)
        where F: FnMut() -> Result<T, E>,
        requires
            call_requires(old(self).operation_spec(), ()),
        ensures
            exists|res: Result<T, E>| {
                &&& #[trigger] call_ensures(old(self).operation_spec(), (), res)
                &&& match res {
                    Ok(v) => r is Ok && final(self).captured() == Some(v),
                    Err(e) => r == Err::<(), AttemptFailure<E>>(AttemptFailure::Error(e))
                        && final(self).captured() == old(self).captured(),
                }
            },
    {
        let result = (self.operation)();
        self.record(result)
    }
}

} // verus!
