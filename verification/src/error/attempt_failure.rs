//! Attempt-level failure values.
//!
//! A retry failure describes why one operation attempt did not produce a
//! successful result. It is distinct from [`crate::RetryError`], which describes
//! why the whole retry flow stopped.

use vstd::prelude::*;

use super::attempt_executor_error::AttemptExecutorError;
use super::attempt_panic::AttemptPanic;

verus! {

/// Failure produced by a single operation attempt.
///
/// The generic parameter `E` is the caller's operation error type. Timeout,
/// panic, and executor failures do not contain `E` because they are generated
/// by the retry runtime, not returned by the operation.
#[derive(Debug, Clone, PartialEq, Eq)]
pub enum AttemptFailure<E> {
    /// The operation returned an application error.
    Error(E),
    /// The attempt exceeded the effective timeout.
    ///
    /// This can be the configured per-attempt timeout, the remaining
    /// max-operation-elapsed budget, or the remaining max-total-elapsed budget.
    Timeout,
    /// The attempt panicked inside an isolated execution boundary.
    Panic(AttemptPanic),
    /// The retry executor failed before the attempt could run normally.
    Executor(AttemptExecutorError),
}

impl<E> AttemptFailure<E> {
    /// The application error wrapped by this failure, if any.
    pub open spec fn error_of(self) -> Option<E> {
        match self {
            AttemptFailure::Error(e) => Some(e),
            _ => None,
        }
    }

    /// Returns the application error when this failure wraps one.
    ///
    /// `Some(&E)` for [`AttemptFailure::Error`], `None` for runtime-generated
    /// failures.
    pub fn as_error(&self) -> (r: Option<&E>)
        ensures
            r matches Some(e) ==> self.error_of() == Some(*e),
            r is None <==> self.error_of() is None,
    {
        match self {
            AttemptFailure::Error(error) => Some(error),
            AttemptFailure::Timeout | AttemptFailure::Panic(_) | AttemptFailure::Executor(_) => None,
        }
    }

    /// Consumes the failure and returns the application error when present.
    pub fn into_error(self) -> (r: Option<E>)
        ensures
            r == self.error_of(),
    {
        match self {
            AttemptFailure::Error(error) => Some(error),
            AttemptFailure::Timeout | AttemptFailure::Panic(_) | AttemptFailure::Executor(_) => None,
        }
    }

    /// Returns captured panic information when this failure wraps one.
    pub fn as_panic(&self) -> (r: Option<&AttemptPanic>)
        ensures
            r is Some <==> self is Panic,
            r matches Some(p) ==> *self == AttemptFailure::<E>::Panic(*p),
    {
        match self {
            AttemptFailure::Panic(panic) => Some(panic),
            AttemptFailure::Error(_) | AttemptFailure::Timeout | AttemptFailure::Executor(_) => None,
        }
    }

    /// Returns executor failure information when this failure wraps one.
    pub fn as_executor_error(&self) -> (r: Option<&AttemptExecutorError>)
        ensures
            r is Some <==> self is Executor,
            r matches Some(x) ==> *self == AttemptFailure::<E>::Executor(*x),
    {
        match self {
            AttemptFailure::Executor(error) => Some(error),
            AttemptFailure::Error(_) | AttemptFailure::Timeout | AttemptFailure::Panic(_) => None,
        }
    }

    /// Returns whether this failure is [`AttemptFailure::Timeout`].
    pub fn is_timeout(&self) -> (r: bool)
        ensures
            r == (self is Timeout),
    {
        matches!(self, AttemptFailure::Timeout)
    }

    /// Display text of a failure produced by the retry runtime; `None` for an
    /// application error, which is shown by its own `Display` text.
    pub open spec fn runtime_text_spec(self) -> Option<Seq<char>> {
        match self {
            AttemptFailure::Error(_) => None,
            AttemptFailure::Timeout => Some("attempt timed out"@),
            AttemptFailure::Panic(p) => Some("attempt panicked: "@ + p@),
            AttemptFailure::Executor(x) => Some("attempt executor failed: "@ + x@),
        }
    }

    /// Returns the display text of a timeout, panic or executor failure, or
    /// `None` for an application error.
    pub fn runtime_text(&self) -> (r: Option<String>)
        ensures
            r is Some <==> self.runtime_text_spec() is Some,
            r matches Some(t) ==> Some(t@) == self.runtime_text_spec(),
    {
        match self {
            AttemptFailure::Error(_) => None,
            AttemptFailure::Timeout => Some("attempt timed out".to_owned()),
            AttemptFailure::Panic(panic) => {
                let mut text = "attempt panicked: ".to_owned();
                text.append(panic.message());
                Some(text)
            },
            AttemptFailure::Executor(error) => {
                let mut text = "attempt executor failed: ".to_owned();
                text.append(error.message());
                Some(text)
            },
        }
    }
}

} // verus!
