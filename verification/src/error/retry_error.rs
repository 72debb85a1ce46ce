//! Retry execution errors.
//!
//! The error returned when a retry flow stops without a successful result. The
//! application error type is preserved in the generic parameter `E`.

use vstd::prelude::*;

use super::attempt_failure::AttemptFailure;
use super::retry_error_reason::RetryErrorReason;
use crate::decimal::{append_decimal, decimal_spec};
use crate::event::RetryContext;

verus! {

/// Error returned when a retry flow terminates without a successful result.
///
/// The generic parameter `E` is the caller's application error type. It is
/// preserved in [`AttemptFailure::Error`] when the terminal failure came from
/// the user operation.
#[derive(Debug, Clone, PartialEq, Eq)]
pub struct RetryError<E> {
    reason: RetryErrorReason,
    last_failure: Option<AttemptFailure<E>>,
    context: RetryContext,
}

impl<E> RetryError<E> {
    /// Terminal reason selected by the retry flow.
    pub closed spec fn spec_reason(&self) -> RetryErrorReason {
        self.reason
    }

    /// Last attempt failure, if any attempt ran before termination.
    pub closed spec fn spec_last_failure(&self) -> Option<AttemptFailure<E>> {
        self.last_failure
    }

    /// Context snapshot captured when the retry flow stopped.
    pub closed spec fn spec_context(&self) -> RetryContext {
        self.context
    }

    /// Creates a retry error from its terminal reason, last failure and
    /// context.
    pub fn new(
        reason: RetryErrorReason,
        last_failure: Option<AttemptFailure<E>>,
        context: RetryContext,
    ) -> (r: Self)
        ensures
            r.spec_reason() == reason,
            r.spec_last_failure() == last_failure,
            r.spec_context() == context,
    {
        RetryError { reason, last_failure, context }
    }

    /// Returns the reason the retry flow stopped.
    pub fn reason(&self) -> (r: RetryErrorReason)
        ensures
            r == self.spec_reason(),
    {
        self.reason
    }

    /// Returns the retry context captured at termination.
    pub fn context(&self) -> (r: &RetryContext)
        ensures
            *r == self.spec_context(),
    {
        &self.context
    }

    /// Returns the number of attempts observed before termination.
    pub fn attempts(&self) -> (r: u32)
        ensures
            r == self.spec_context()@.attempt,
    {
        self.context.attempt()
    }

    /// Returns the last failure; `None` when the flow stopped before any
    /// attempt ran.
    pub fn last_failure(&self) -> (r: Option<&AttemptFailure<E>>)
        ensures
            r is Some <==> self.spec_last_failure() is Some,
            r matches Some(f) ==> self.spec_last_failure() == Some(*f),
    {
        match &self.last_failure {
            Some(f) => Some(f),
            None => None,
        }
    }

    /// Returns the last application error: `Some` when the terminal failure
    /// wraps an application error.
    pub fn last_error(&self) -> (r: Option<&E>)
        ensures
            r is Some <==> (self.spec_last_failure() matches Some(f) && f is Error),
            r matches Some(e) ==> self.spec_last_failure() == Some(AttemptFailure::<E>::Error(*e)),
    {
        match &self.last_failure {
            Some(f) => f.as_error(),
            None => None,
        }
    }

    /// Consumes the retry error and returns the last application error when
    /// the final failure wraps one.
    pub fn into_last_error(self) -> (r: Option<E>)
        ensures
            r == match self.spec_last_failure() {
                Some(f) => f.error_of(),
                None => None,
            },
    {
        match self.last_failure {
            Some(f) => f.into_error(),
            None => None,
        }
    }

    /// Consumes the retry error and returns `(reason, last_failure, context)`.
    pub fn into_parts(self) -> (r: (RetryErrorReason, Option<AttemptFailure<E>>, RetryContext))
        ensures
            r == (self.spec_reason(), self.spec_last_failure(), self.spec_context()),
    {
        (self.reason, self.last_failure, self.context)
    }

    /// Returns the diagnostic summary of this error: what stopped the flow
    /// and after how many attempts. The text of the last failure, which
    /// needs the application error's own formatting, follows it as
    /// `; last failure: ...` where one is shown.
    pub fn summary(&self) -> (r: String)
        ensures
            r@ == summary_spec(self.spec_reason(), self.spec_context()@.attempt as nat, self.spec_context()@.max_attempts as nat),
    {
        let mut text = match self.reason {
            RetryErrorReason::Aborted => "retry aborted".to_owned(),
            RetryErrorReason::AttemptsExceeded => "retry attempts exceeded".to_owned(),
            RetryErrorReason::MaxOperationElapsedExceeded => "retry max operation elapsed exceeded".to_owned(),
            RetryErrorReason::MaxTotalElapsedExceeded => "retry max total elapsed exceeded".to_owned(),
            RetryErrorReason::UnsupportedOperation => "retry unsupported operation".to_owned(),
            RetryErrorReason::WorkerStillRunning => "retry worker still running".to_owned(),
        };
        text.append(" after ");
        append_decimal(&mut text, self.context.attempt() as u128);
        text.append(" attempt(s)");
        if matches!(self.reason, RetryErrorReason::AttemptsExceeded) {
            text.append(", max ");
            append_decimal(&mut text, self.context.max_attempts() as u128);
        }
        proof {
            let attempts = self.spec_context()@.attempt as nat;
            let max = self.spec_context()@.max_attempts as nat;
            let base = reason_text(self.reason) + " after "@ + decimal_spec(attempts) + " attempt(s)"@;
            if self.reason == RetryErrorReason::AttemptsExceeded {
                assert(text@ =~= base + ", max "@ + decimal_spec(max));
            } else {
                assert(text@ =~= base);
            }
        }
        text
    }
}

/// Leading words of the summary of a retry error with `reason`.
pub open spec fn reason_text(reason: RetryErrorReason) -> Seq<char> {
    match reason {
        RetryErrorReason::Aborted => "retry aborted"@,
        RetryErrorReason::AttemptsExceeded => "retry attempts exceeded"@,
        RetryErrorReason::MaxOperationElapsedExceeded => "retry max operation elapsed exceeded"@,
        RetryErrorReason::MaxTotalElapsedExceeded => "retry max total elapsed exceeded"@,
        RetryErrorReason::UnsupportedOperation => "retry unsupported operation"@,
        RetryErrorReason::WorkerStillRunning => "retry worker still running"@,
    }
}

/// Summary of a retry error: the reason, ` after N attempt(s)`, and for
/// exhausted attempts `, max M`.
pub open spec fn summary_spec(reason: RetryErrorReason, attempts: nat, max_attempts: nat) -> Seq<char> {
    let base = reason_text(reason) + " after "@ + decimal_spec(attempts) + " attempt(s)"@;
    if reason == RetryErrorReason::AttemptsExceeded {
        base + ", max "@ + decimal_spec(max_attempts)
    } else {
        base
    }
}

} // verus!
