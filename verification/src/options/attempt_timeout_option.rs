//! Per-attempt timeout option.

use std::time::Duration;
use vstd::prelude::*;

use super::attempt_timeout_policy::AttemptTimeoutPolicy;
use crate::duration::{duration_nanos, is_zero};

verus! {

/// Per-attempt timeout settings.
///
/// A timeout option combines the timeout duration with the policy selected
/// when an attempt exceeds that duration.
#[derive(Debug, Clone, Copy, PartialEq, Eq)]
pub struct AttemptTimeoutOption {
    timeout: Duration,
    policy: AttemptTimeoutPolicy,
}

impl View for AttemptTimeoutOption {
    /// `(timeout, policy)`.
    type V = (Duration, AttemptTimeoutPolicy);

    closed spec fn view(&self) -> (Duration, AttemptTimeoutPolicy) {
        (self.timeout, self.policy)
    }
}

impl AttemptTimeoutOption {
    /// Whether the option can be used by an executor: a non-zero timeout.
    pub open spec fn is_valid(self) -> bool {
        duration_nanos(self@.0) > 0
    }

    /// Creates a per-attempt timeout option. Call
    /// [`AttemptTimeoutOption::validate`] before using values that come from
    /// configuration or user input.
    pub fn new(timeout: Duration, policy: AttemptTimeoutPolicy) -> (r: Self)
        ensures
            r@ == (timeout, policy),
    {
        AttemptTimeoutOption { timeout, policy }
    }

    /// Creates a timeout option that retries timed-out attempts.
    pub fn retry(timeout: Duration) -> (r: Self)
        ensures
            r@ == (timeout, AttemptTimeoutPolicy::Retry),
    {
        Self::new(timeout, AttemptTimeoutPolicy::Retry)
    }

    /// Creates a timeout option that aborts on the first timed-out attempt.
    pub fn abort(timeout: Duration) -> (r: Self)
        ensures
            r@ == (timeout, AttemptTimeoutPolicy::Abort),
    {
        Self::new(timeout, AttemptTimeoutPolicy::Abort)
    }

    /// Returns the maximum duration allowed for one attempt.
    pub fn timeout(&self) -> (r: Duration)
        ensures
            r == self@.0,
    {
        self.timeout
    }

    /// Returns the policy selected when one attempt times out.
    pub fn policy(&self) -> (r: AttemptTimeoutPolicy)
        ensures
            r == self@.1,
    {
        self.policy
    }

    /// Returns a copy with the same duration and another timeout policy.
    pub fn with_policy(self, policy: AttemptTimeoutPolicy) -> (r: Self)
        ensures
            r@ == (self@.0, policy),
    {
        AttemptTimeoutOption { policy, ..self }
    }

    /// Validates this timeout option: `Ok(())` exactly when the timeout is
    /// non-zero.
    pub fn validate(&self) -> (r: Result<(), String>)
        ensures
            r is Ok <==> self.is_valid(),
            r matches Err(m) ==> m@ == "attempt timeout must be greater than zero"@,
    {
        if is_zero(&self.timeout) {
            Err("attempt timeout must be greater than zero".to_owned())
        } else {
            Ok(())
        }
    }
}

} // verus!
