//! Fluent construction of retry limits.

use std::time::Duration;
use vstd::prelude::*;

use super::attempt_timeout_option::AttemptTimeoutOption;
use super::attempt_timeout_policy::AttemptTimeoutPolicy;
use super::retry_limits::{is_attempt_timeout_error, is_max_attempts_error, RetryLimits, RetryLimitsView};
use crate::constants::{
    DEFAULT_RETRY_MAX_ATTEMPTS, DEFAULT_RETRY_WORKER_CANCEL_GRACE_MILLIS, KEY_MAX_ATTEMPTS,
};
use crate::duration::duration_nanos;
use crate::error::RetryConfigError;

verus! {

/// Builder for [`RetryLimits`].
///
/// An invalid maximum attempt count is remembered and reported by
/// [`RetryLimitsBuilder::build`] unless a later call replaces it. The attempt
/// timeout policy chosen before an attempt timeout is set applies to that
/// timeout when it is set.
#[derive(Debug)]
pub struct RetryLimitsBuilder {
    limits: RetryLimits,
    pending_attempt_timeout_policy: AttemptTimeoutPolicy,
    max_attempts_error: Option<RetryConfigError>,
}

/// Mathematical content of a [`RetryLimitsBuilder`].
pub struct RetryLimitsBuilderView {
    /// Limits collected so far.
    pub limits: RetryLimitsView,
    /// Policy applied to the next attempt timeout that is set.
    pub pending_attempt_timeout_policy: AttemptTimeoutPolicy,
    /// Whether the last maximum attempt count set was invalid (zero).
    pub max_attempts_invalid: bool,
}

impl View for RetryLimitsBuilder {
    type V = RetryLimitsBuilderView;

    closed spec fn view(&self) -> RetryLimitsBuilderView {
        RetryLimitsBuilderView {
            limits: self.limits@,
            pending_attempt_timeout_policy: self.pending_attempt_timeout_policy,
            max_attempts_invalid: self.max_attempts_error is Some,
        }
    }
}

impl RetryLimitsBuilder {
    #[verifier::type_invariant]
    spec fn error_names_max_attempts(self) -> bool {
        self.max_attempts_error matches Some(e) ==> is_max_attempts_error(e)
    }

    /// Creates a builder holding the default limits and the `Retry` pending
    /// timeout policy.
    pub fn new() -> (r: Self)
        ensures
            r@.limits.max_attempts == DEFAULT_RETRY_MAX_ATTEMPTS,
            r@.limits.max_operation_elapsed is None,
            r@.limits.max_total_elapsed is None,
            r@.limits.attempt_timeout is None,
            duration_nanos(r@.limits.worker_cancel_grace) == DEFAULT_RETRY_WORKER_CANCEL_GRACE_MILLIS * 1_000_000,
            r@.pending_attempt_timeout_policy == AttemptTimeoutPolicy::Retry,
            !r@.max_attempts_invalid,
    {
        RetryLimitsBuilder {
            limits: RetryLimits::default(),
            pending_attempt_timeout_policy: AttemptTimeoutPolicy::Retry,
            max_attempts_error: None,
        }
    }

    /// Replaces all limits. The pending timeout policy becomes the policy of
    /// the given attempt timeout, or `Retry`; an earlier invalid attempt count
    /// is forgotten.
    pub fn options(self, limits: RetryLimits) -> (r: Self)
        ensures
            r@.limits == limits@,
            r@.pending_attempt_timeout_policy == match limits@.attempt_timeout {
                Some(t) => t@.1,
                None => AttemptTimeoutPolicy::Retry,
            },
            !r@.max_attempts_invalid,
    {
        proof {
            use_type_invariant(&self);
        }
        let pending = match limits.attempt_timeout() {
            Some(t) => t.policy(),
            None => AttemptTimeoutPolicy::Retry,
        };
        RetryLimitsBuilder { limits, pending_attempt_timeout_policy: pending, max_attempts_error: None }
    }

    /// Sets the maximum attempts, including the first call. Zero is remembered
    /// as an error reported by [`RetryLimitsBuilder::build`], and leaves the
    /// current count unchanged.
    pub fn max_attempts(self, max_attempts: u32) -> (r: Self)
        ensures
            r@.max_attempts_invalid == (max_attempts == 0),
            r@.pending_attempt_timeout_policy == self@.pending_attempt_timeout_policy,
            r@.limits == if max_attempts == 0 {
                self@.limits
            } else {
                RetryLimitsView { max_attempts, ..self@.limits }
            },
    {
        proof {
            use_type_invariant(&self);
        }
        let mut limits = self.limits;
        if max_attempts > 0 {
            limits.set_max_attempts(max_attempts);
            RetryLimitsBuilder { limits, max_attempts_error: None, ..self }
        } else {
            RetryLimitsBuilder {
                max_attempts_error: Some(
                    RetryConfigError::invalid_value(KEY_MAX_ATTEMPTS, "max_attempts must be greater than zero"),
                ),
                ..self
            }
        }
    }

    /// Sets the maximum retries after the first attempt: `max_retries + 1`
    /// attempts, saturating at `u32::MAX`.
    pub fn max_retries(self, max_retries: u32) -> (r: Self)
        ensures
            !r@.max_attempts_invalid,
            r@.pending_attempt_timeout_policy == self@.pending_attempt_timeout_policy,
            r@.limits == (RetryLimitsView {
                max_attempts: if max_retries == u32::MAX { u32::MAX } else { (max_retries + 1) as u32 },
                ..self@.limits
            }),
    {
        let attempts = max_retries.saturating_add(1);
        self.max_attempts(attempts)
    }

    /// Sets the cumulative user operation time budget.
    pub fn max_operation_elapsed(self, max_operation_elapsed: Option<Duration>) -> (r: Self)
        ensures
            r@ == (RetryLimitsBuilderView {
                limits: RetryLimitsView { max_operation_elapsed, ..self@.limits },
                ..self@
            }),
    {
        proof {
            use_type_invariant(&self);
        }
        let mut limits = self.limits;
        limits.set_max_operation_elapsed(max_operation_elapsed);
        RetryLimitsBuilder { limits, ..self }
    }

    /// Sets the total retry-flow elapsed time budget.
    pub fn max_total_elapsed(self, max_total_elapsed: Option<Duration>) -> (r: Self)
        ensures
            r@ == (RetryLimitsBuilderView {
                limits: RetryLimitsView { max_total_elapsed, ..self@.limits },
                ..self@
            }),
    {
        proof {
            use_type_invariant(&self);
        }
        let mut limits = self.limits;
        limits.set_max_total_elapsed(max_total_elapsed);
        RetryLimitsBuilder { limits, ..self }
    }

    /// Sets the worker cancellation grace period.
    pub fn worker_cancel_grace(self, grace: Duration) -> (r: Self)
        ensures
            r@ == (RetryLimitsBuilderView {
                limits: RetryLimitsView { worker_cancel_grace: grace, ..self@.limits },
                ..self@
            }),
    {
        proof {
            use_type_invariant(&self);
        }
        let mut limits = self.limits;
        limits.set_worker_cancel_grace(grace);
        RetryLimitsBuilder { limits, ..self }
    }

    /// Sets the per-attempt timeout with the pending timeout policy, or
    /// clears it (which also resets the pending policy to `Retry`).
    pub fn attempt_timeout(self, attempt_timeout: Option<Duration>) -> (r: Self)
        ensures
            r@.max_attempts_invalid == self@.max_attempts_invalid,
            match attempt_timeout {
                Some(t) => {
                    &&& r@.pending_attempt_timeout_policy == self@.pending_attempt_timeout_policy
                    &&& r@.limits.max_attempts == self@.limits.max_attempts
                    &&& r@.limits.max_operation_elapsed == self@.limits.max_operation_elapsed
                    &&& r@.limits.max_total_elapsed == self@.limits.max_total_elapsed
                    &&& r@.limits.worker_cancel_grace == self@.limits.worker_cancel_grace
                    &&& r@.limits.attempt_timeout matches Some(o) && o@ == (t, self@.pending_attempt_timeout_policy)
                },
                None => {
                    &&& r@.pending_attempt_timeout_policy == AttemptTimeoutPolicy::Retry
                    &&& r@.limits == (RetryLimitsView { attempt_timeout: None, ..self@.limits })
                },
            },
    {
        proof {
            use_type_invariant(&self);
        }
        let mut limits = self.limits;
        match attempt_timeout {
            Some(t) => {
                limits.set_attempt_timeout(Some(AttemptTimeoutOption::new(t, self.pending_attempt_timeout_policy)));
                RetryLimitsBuilder { limits, ..self }
            },
            None => {
                limits.set_attempt_timeout(None);
                RetryLimitsBuilder { limits, pending_attempt_timeout_policy: AttemptTimeoutPolicy::Retry, ..self }
            },
        }
    }

    /// Sets or clears the complete attempt timeout settings; the pending
    /// policy follows them (`Retry` when cleared).
    pub fn attempt_timeout_option(self, attempt_timeout: Option<AttemptTimeoutOption>) -> (r: Self)
        ensures
            r@ == (RetryLimitsBuilderView {
                limits: RetryLimitsView { attempt_timeout, ..self@.limits },
                pending_attempt_timeout_policy: match attempt_timeout {
                    Some(t) => t@.1,
                    None => AttemptTimeoutPolicy::Retry,
                },
                ..self@
            }),
    {
        proof {
            use_type_invariant(&self);
        }
        let pending = match attempt_timeout {
            Some(t) => t.policy(),
            None => AttemptTimeoutPolicy::Retry,
        };
        let mut limits = self.limits;
        limits.set_attempt_timeout(attempt_timeout);
        RetryLimitsBuilder { limits, pending_attempt_timeout_policy: pending, ..self }
    }

    /// Sets the attempt timeout policy: it becomes the pending policy and
    /// replaces the policy of a configured attempt timeout, keeping its
    /// duration.
    pub fn attempt_timeout_policy(self, policy: AttemptTimeoutPolicy) -> (r: Self)
        ensures
            r@.max_attempts_invalid == self@.max_attempts_invalid,
            r@.pending_attempt_timeout_policy == policy,
            r@.limits.max_attempts == self@.limits.max_attempts,
            r@.limits.max_operation_elapsed == self@.limits.max_operation_elapsed,
            r@.limits.max_total_elapsed == self@.limits.max_total_elapsed,
            r@.limits.worker_cancel_grace == self@.limits.worker_cancel_grace,
            match self@.limits.attempt_timeout {
                Some(o) => r@.limits.attempt_timeout matches Some(n) && n@ == (o@.0, policy),
                None => r@.limits.attempt_timeout is None,
            },
    {
        proof {
            use_type_invariant(&self);
        }
        let mut limits = self.limits;
        let updated = match limits.attempt_timeout() {
            Some(t) => Some(t.with_policy(policy)),
            None => None,
        };
        limits.set_attempt_timeout(updated);
        RetryLimitsBuilder { limits, pending_attempt_timeout_policy: policy, ..self }
    }

    /// Aborts the retry flow on a configured attempt timeout.
    pub fn abort_on_timeout(self) -> (r: Self)
        ensures
            r@.max_attempts_invalid == self@.max_attempts_invalid,
            r@.pending_attempt_timeout_policy == AttemptTimeoutPolicy::Abort,
            r@.limits.max_attempts == self@.limits.max_attempts,
            r@.limits.max_operation_elapsed == self@.limits.max_operation_elapsed,
            r@.limits.max_total_elapsed == self@.limits.max_total_elapsed,
            r@.limits.worker_cancel_grace == self@.limits.worker_cancel_grace,
            match self@.limits.attempt_timeout {
                Some(o) => r@.limits.attempt_timeout matches Some(n) && n@ == (o@.0, AttemptTimeoutPolicy::Abort),
                None => r@.limits.attempt_timeout is None,
            },
    {
        self.attempt_timeout_policy(AttemptTimeoutPolicy::Abort)
    }

    /// Retries after a configured attempt timeout while limits allow it.
    pub fn retry_on_timeout(self) -> (r: Self)
        ensures
            r@.max_attempts_invalid == self@.max_attempts_invalid,
            r@.pending_attempt_timeout_policy == AttemptTimeoutPolicy::Retry,
            r@.limits.max_attempts == self@.limits.max_attempts,
            r@.limits.max_operation_elapsed == self@.limits.max_operation_elapsed,
            r@.limits.max_total_elapsed == self@.limits.max_total_elapsed,
            r@.limits.worker_cancel_grace == self@.limits.worker_cancel_grace,
            match self@.limits.attempt_timeout {
                Some(o) => r@.limits.attempt_timeout matches Some(n) && n@ == (o@.0, AttemptTimeoutPolicy::Retry),
                None => r@.limits.attempt_timeout is None,
            },
    {
        self.attempt_timeout_policy(AttemptTimeoutPolicy::Retry)
    }

    /// Returns the error for an invalid maximum attempt count, if the last
    /// count set was zero.
    pub fn max_attempts_error(&self) -> (r: Option<&RetryConfigError>)
        ensures
            r is Some <==> self@.max_attempts_invalid,
            r matches Some(e) ==> is_max_attempts_error(*e),
    {
        proof {
            use_type_invariant(self);
        }
        match &self.max_attempts_error {
            Some(e) => Some(e),
            None => None,
        }
    }

    /// Builds the limits: fails with the remembered attempt-count error, or
    /// with an invalid attempt timeout; otherwise returns the collected
    /// limits.
    pub fn build(self) -> (r: Result<RetryLimits, RetryConfigError>)
        ensures
            r is Ok <==> (!self@.max_attempts_invalid && (self@.limits.attempt_timeout matches Some(t)
                ==> t.is_valid())),
            r matches Ok(l) ==> l@ == self@.limits,
            r matches Err(e) ==> if self@.max_attempts_invalid {
                is_max_attempts_error(e)
            } else {
                is_attempt_timeout_error(e)
            },
    {
        proof {
            use_type_invariant(&self);
        }
        if let Some(error) = self.max_attempts_error {
            return Err(error);
        }
        self.limits.validate()?;
        Ok(self.limits)
    }

    /// Builds the limits of options whose delay and jitter strategies were
    /// checked separately, with `strategy_check` the outcome of that check.
    /// Errors come in order: the remembered attempt-count error, then the
    /// strategy error, then an invalid attempt timeout.
    pub fn build_with_strategy_check(self, strategy_check: Result<(), RetryConfigError>) -> (r: Result<
        RetryLimits,
        RetryConfigError,
    >)
        ensures
            self@.max_attempts_invalid ==> (r matches Err(e) && is_max_attempts_error(e)),
            !self@.max_attempts_invalid && strategy_check is Err ==> r == Err::<RetryLimits, RetryConfigError>(
                strategy_check->Err_0,
            ),
            !self@.max_attempts_invalid && strategy_check is Ok ==> {
                &&& (r is Ok <==> (self@.limits.attempt_timeout matches Some(t) ==> t.is_valid()))
                &&& (r matches Ok(l) ==> l@ == self@.limits)
                &&& (r matches Err(e) ==> is_attempt_timeout_error(e))
            },
    {
        proof {
            use_type_invariant(&self);
        }
        if let Some(error) = self.max_attempts_error {
            return Err(error);
        }
        match strategy_check {
            Ok(()) => {},
            Err(e) => {
                return Err(e);
            },
        }
        self.limits.validate()?;
        Ok(self.limits)
    }
}

} // verus!
