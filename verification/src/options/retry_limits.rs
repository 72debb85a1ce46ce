//! Attempt and time limits of a retry policy.

use std::time::Duration;
use vstd::prelude::*;

use super::attempt_timeout_option::AttemptTimeoutOption;
use crate::constants::{
    DEFAULT_RETRY_MAX_ATTEMPTS, DEFAULT_RETRY_WORKER_CANCEL_GRACE_MILLIS,
    KEY_ATTEMPT_TIMEOUT_MILLIS, KEY_MAX_ATTEMPTS,
};
use crate::duration::{duration_nanos, from_millis};
use crate::error::RetryConfigError;

verus! {

/// The limits of a retry policy: everything in the retry options except the
/// delay and jitter strategies.
///
/// The maximum attempt count is always positive.
#[derive(Debug, Clone, Copy, PartialEq, Eq)]
pub struct RetryLimits {
    max_attempts: u32,
    max_operation_elapsed: Option<Duration>,
    max_total_elapsed: Option<Duration>,
    attempt_timeout: Option<AttemptTimeoutOption>,
    worker_cancel_grace: Duration,
}

/// Mathematical content of [`RetryLimits`].
pub struct RetryLimitsView {
    /// Maximum attempts, including the initial attempt.
    pub max_attempts: u32,
    /// Maximum cumulative user operation time for the retry flow.
    pub max_operation_elapsed: Option<Duration>,
    /// Maximum monotonic elapsed time for the whole retry flow.
    pub max_total_elapsed: Option<Duration>,
    /// Optional per-attempt timeout settings.
    pub attempt_timeout: Option<AttemptTimeoutOption>,
    /// Grace period for a timed-out worker to observe cancellation and exit.
    pub worker_cancel_grace: Duration,
}

impl View for RetryLimits {
    type V = RetryLimitsView;

    closed spec fn view(&self) -> RetryLimitsView {
        RetryLimitsView {
            max_attempts: self.max_attempts,
            max_operation_elapsed: self.max_operation_elapsed,
            max_total_elapsed: self.max_total_elapsed,
            attempt_timeout: self.attempt_timeout,
            worker_cancel_grace: self.worker_cancel_grace,
        }
    }
}

/// Message of the error for a zero maximum attempt count.
pub open spec fn max_attempts_message() -> Seq<char> {
    "max_attempts must be greater than zero"@
}

/// Message of the error for a zero attempt timeout.
pub open spec fn attempt_timeout_message() -> Seq<char> {
    "attempt timeout must be greater than zero"@
}

/// Whether `e` is the error for a zero maximum attempt count.
pub open spec fn is_max_attempts_error(e: RetryConfigError) -> bool {
    e.key_view() == KEY_MAX_ATTEMPTS@ && e.message_view() == max_attempts_message()
}

/// Whether `e` is the error for a zero attempt timeout.
pub open spec fn is_attempt_timeout_error(e: RetryConfigError) -> bool {
    e.key_view() == KEY_ATTEMPT_TIMEOUT_MILLIS@ && e.message_view() == attempt_timeout_message()
}

impl RetryLimits {
    #[verifier::type_invariant]
    spec fn positive_attempts(self) -> bool {
        self.max_attempts > 0
    }

    /// Whether the attempt timeout, if any, is valid.
    pub open spec fn attempt_timeout_valid(self) -> bool {
        self@.attempt_timeout matches Some(t) ==> t.is_valid()
    }

    /// Checks the maximum attempt count: `Ok(())` exactly when it is
    /// positive; otherwise an invalid-value error for `max_attempts`.
    pub fn validate_max_attempts(max_attempts: u32) -> (r: Result<(), RetryConfigError>)
        ensures
            r is Ok <==> max_attempts > 0,
            r matches Err(e) ==> is_max_attempts_error(e),
    {
        if max_attempts == 0 {
            Err(RetryConfigError::invalid_value(KEY_MAX_ATTEMPTS, "max_attempts must be greater than zero"))
        } else {
            Ok(())
        }
    }

    /// Checks an optional attempt timeout: `Ok(())` exactly when it is absent
    /// or non-zero; otherwise an invalid-value error for
    /// `attempt_timeout_millis`.
    pub fn validate_attempt_timeout(attempt_timeout: Option<AttemptTimeoutOption>) -> (r: Result<(), RetryConfigError>)
        ensures
            r is Ok <==> (attempt_timeout matches Some(t) ==> t.is_valid()),
            r matches Err(e) ==> is_attempt_timeout_error(e),
    {
        match attempt_timeout {
            Some(t) => match t.validate() {
                Ok(()) => Ok(()),
                Err(message) => Err(RetryConfigError::invalid_value(KEY_ATTEMPT_TIMEOUT_MILLIS, message.as_str())),
            },
            None => Ok(()),
        }
    }

    /// Creates validated limits with the default worker cancellation grace.
    ///
    /// Fails when `max_attempts` is zero (checked first) or when the attempt
    /// timeout is zero.
    pub fn new(
        max_attempts: u32,
        max_operation_elapsed: Option<Duration>,
        max_total_elapsed: Option<Duration>,
        attempt_timeout: Option<AttemptTimeoutOption>,
    ) -> (r: Result<Self, RetryConfigError>)
        ensures
            r is Ok <==> (max_attempts > 0 && (attempt_timeout matches Some(t) ==> t.is_valid())),
            r matches Err(e) ==> (if max_attempts == 0 {
                is_max_attempts_error(e)
            } else {
                is_attempt_timeout_error(e)
            }),
            r matches Ok(l) ==> {
                &&& l@.max_attempts == max_attempts
                &&& l@.max_operation_elapsed == max_operation_elapsed
                &&& l@.max_total_elapsed == max_total_elapsed
                &&& l@.attempt_timeout == attempt_timeout
                &&& duration_nanos(l@.worker_cancel_grace) == DEFAULT_RETRY_WORKER_CANCEL_GRACE_MILLIS * 1_000_000
            },
    {
        Self::validate_max_attempts(max_attempts)?;
        Self::validate_attempt_timeout(attempt_timeout)?;
        Ok(RetryLimits {
            max_attempts,
            max_operation_elapsed,
            max_total_elapsed,
            attempt_timeout,
            worker_cancel_grace: from_millis(DEFAULT_RETRY_WORKER_CANCEL_GRACE_MILLIS),
        })
    }

    /// Creates validated limits for options whose delay and jitter strategies
    /// were checked separately, with `strategy_check` the outcome of that
    /// check. Errors come in order: a zero attempt count, then the strategy
    /// error, then an invalid attempt timeout.
    pub fn new_with_strategy_check(
        max_attempts: u32,
        max_operation_elapsed: Option<Duration>,
        max_total_elapsed: Option<Duration>,
        attempt_timeout: Option<AttemptTimeoutOption>,
        strategy_check: Result<(), RetryConfigError>,
    ) -> (r: Result<Self, RetryConfigError>)
        ensures
            max_attempts == 0 ==> (r matches Err(e) && is_max_attempts_error(e)),
            max_attempts > 0 && strategy_check is Err ==> r == Err::<RetryLimits, RetryConfigError>(
                strategy_check->Err_0,
            ),
            max_attempts > 0 && strategy_check is Ok ==> {
                &&& (r is Ok <==> (attempt_timeout matches Some(t) ==> t.is_valid()))
                &&& (r matches Err(e) ==> is_attempt_timeout_error(e))
                &&& (r matches Ok(l) ==> {
                    &&& l@.max_attempts == max_attempts
                    &&& l@.max_operation_elapsed == max_operation_elapsed
                    &&& l@.max_total_elapsed == max_total_elapsed
                    &&& l@.attempt_timeout == attempt_timeout
                    &&& duration_nanos(l@.worker_cancel_grace) == DEFAULT_RETRY_WORKER_CANCEL_GRACE_MILLIS
                        * 1_000_000
                })
            },
    {
        Self::validate_max_attempts(max_attempts)?;
        match strategy_check {
            Ok(()) => {},
            Err(e) => {
                return Err(e);
            },
        }
        Self::new(max_attempts, max_operation_elapsed, max_total_elapsed, attempt_timeout)
    }

    /// Validates options whose delay and jitter strategies were checked
    /// separately: the strategy error comes first, then an invalid attempt
    /// timeout.
    pub fn validate_with_strategy_check(&self, strategy_check: Result<(), RetryConfigError>) -> (r: Result<
        (),
        RetryConfigError,
    >)
        ensures
            strategy_check is Err ==> r == strategy_check,
            strategy_check is Ok ==> (r is Ok <==> self.attempt_timeout_valid()),
            strategy_check is Ok && r is Err ==> is_attempt_timeout_error(r->Err_0),
    {
        match strategy_check {
            Ok(()) => self.validate(),
            Err(e) => Err(e),
        }
    }

    /// Validates the limits: `Ok(())` exactly when the attempt timeout, if
    /// any, is non-zero.
    pub fn validate(&self) -> (r: Result<(), RetryConfigError>)
        ensures
            r is Ok <==> self.attempt_timeout_valid(),
            r matches Err(e) ==> is_attempt_timeout_error(e),
    {
        Self::validate_attempt_timeout(self.attempt_timeout)
    }

    /// Returns the maximum attempts, including the initial attempt; always
    /// positive.
    pub fn max_attempts(&self) -> (r: u32)
        ensures
            r == self@.max_attempts,
            r > 0,
    {
        proof {
            use_type_invariant(self);
        }
        self.max_attempts
    }

    /// Returns the maximum cumulative user operation time budget.
    pub fn max_operation_elapsed(&self) -> (r: Option<Duration>)
        ensures
            r == self@.max_operation_elapsed,
    {
        self.max_operation_elapsed
    }

    /// Returns the maximum total retry-flow elapsed time budget.
    pub fn max_total_elapsed(&self) -> (r: Option<Duration>)
        ensures
            r == self@.max_total_elapsed,
    {
        self.max_total_elapsed
    }

    /// Returns the optional per-attempt timeout settings.
    pub fn attempt_timeout(&self) -> (r: Option<AttemptTimeoutOption>)
        ensures
            r == self@.attempt_timeout,
    {
        self.attempt_timeout
    }

    /// Returns the worker cancellation grace period.
    pub fn worker_cancel_grace(&self) -> (r: Duration)
        ensures
            r == self@.worker_cancel_grace,
    {
        self.worker_cancel_grace
    }

    /// Sets the maximum attempts, which must be positive.
    pub fn set_max_attempts(&mut self, max_attempts: u32)
        requires
            max_attempts > 0,
        ensures
            final(self)@ == (RetryLimitsView { max_attempts, ..old(self)@ }),
    {
        *self = RetryLimits { max_attempts, ..*self };
    }

    /// Sets the maximum cumulative user operation time budget.
    pub fn set_max_operation_elapsed(&mut self, max_operation_elapsed: Option<Duration>)
        ensures
            final(self)@ == (RetryLimitsView { max_operation_elapsed, ..old(self)@ }),
    {
        proof {
            use_type_invariant(&*self);
        }
        *self = RetryLimits { max_operation_elapsed, ..*self };
    }

    /// Sets the maximum total retry-flow elapsed time budget.
    pub fn set_max_total_elapsed(&mut self, max_total_elapsed: Option<Duration>)
        ensures
            final(self)@ == (RetryLimitsView { max_total_elapsed, ..old(self)@ }),
    {
        proof {
            use_type_invariant(&*self);
        }
        *self = RetryLimits { max_total_elapsed, ..*self };
    }

    /// Sets the per-attempt timeout settings; validated by
    /// [`RetryLimits::validate`].
    pub fn set_attempt_timeout(&mut self, attempt_timeout: Option<AttemptTimeoutOption>)
        ensures
            final(self)@ == (RetryLimitsView { attempt_timeout, ..old(self)@ }),
    {
        proof {
            use_type_invariant(&*self);
        }
        *self = RetryLimits { attempt_timeout, ..*self };
    }

    /// Sets the worker cancellation grace period.
    pub fn set_worker_cancel_grace(&mut self, worker_cancel_grace: Duration)
        ensures
            final(self)@ == (RetryLimitsView { worker_cancel_grace, ..old(self)@ }),
    {
        proof {
            use_type_invariant(&*self);
        }
        *self = RetryLimits { worker_cancel_grace, ..*self };
    }
}

impl Default for RetryLimits {
    /// Five attempts, no elapsed budgets, no attempt timeout and the default
    /// worker cancellation grace.
    fn default() -> (r: Self)
        ensures
            r@.max_attempts == DEFAULT_RETRY_MAX_ATTEMPTS,
            r@.max_operation_elapsed is None,
            r@.max_total_elapsed is None,
            r@.attempt_timeout is None,
            duration_nanos(r@.worker_cancel_grace) == DEFAULT_RETRY_WORKER_CANCEL_GRACE_MILLIS * 1_000_000,
    {
        RetryLimits {
            max_attempts: DEFAULT_RETRY_MAX_ATTEMPTS,
            max_operation_elapsed: None,
            max_total_elapsed: None,
            attempt_timeout: None,
            worker_cancel_grace: from_millis(DEFAULT_RETRY_WORKER_CANCEL_GRACE_MILLIS),
        }
    }
}

} // verus!
