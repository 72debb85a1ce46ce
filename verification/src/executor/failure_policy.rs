//! Decisions taken by a retry policy around one attempt: timeouts, elapsed
//! budgets, failure classification and retry delays.

use std::time::Duration;
use vstd::prelude::*;

use super::effective_attempt_timeout::{effective_timeout_spec, EffectiveAttemptTimeout};
use crate::duration::{duration_nanos, le, saturating_diff_nanos, saturating_sub};
use crate::error::{AttemptFailure, RetryError, RetryErrorReason};
use crate::event::{
    AttemptFailureDecision, AttemptTimeoutSource, RetryContext, RetryContextParts,
    RetryContextView,
};
use crate::options::{AttemptTimeoutOption, AttemptTimeoutPolicy, RetryLimits, RetryLimitsView};

verus! {

/// Whether an optional budget is exhausted: it is set and `elapsed` has
/// reached it.
pub open spec fn budget_exhausted(budget: Option<Duration>, elapsed: Duration) -> bool {
    budget matches Some(m) && duration_nanos(elapsed) >= duration_nanos(m)
}

/// Nanoseconds left of an optional budget after `elapsed`, floored at zero;
/// `None` for an unlimited budget.
pub open spec fn remaining_spec(budget: Option<Duration>, elapsed: Duration) -> Option<nat> {
    match budget {
        Some(m) => Some(saturating_diff_nanos(duration_nanos(m), duration_nanos(elapsed))),
        None => None,
    }
}

/// Nanoseconds of an optional duration.
pub open spec fn nanos_opt(d: Option<Duration>) -> Option<nat> {
    match d {
        Some(x) => Some(duration_nanos(x)),
        None => None,
    }
}

/// The configured attempt timeout duration, if any.
pub open spec fn configured_timeout(limits: RetryLimitsView) -> Option<Duration> {
    match limits.attempt_timeout {
        Some(t) => Some(t@.0),
        None => None,
    }
}

/// The context snapshot the policy builds for one event of a retry flow.
pub open spec fn context_spec(
    limits: RetryLimitsView,
    attempt: u32,
    operation_elapsed: Duration,
    total_elapsed: Duration,
    attempt_elapsed: Duration,
    timeout: EffectiveAttemptTimeout,
) -> RetryContextView {
    RetryContextView {
        attempt,
        max_attempts: limits.max_attempts,
        max_operation_elapsed: limits.max_operation_elapsed,
        max_total_elapsed: limits.max_total_elapsed,
        operation_elapsed,
        total_elapsed,
        attempt_elapsed,
        attempt_timeout: timeout.duration,
        next_delay: None,
        retry_after_hint: None,
        attempt_timeout_source: timeout.source,
        unreaped_worker_count: 0,
    }
}

/// The last decision in `s` that is not `UseDefault`, or `UseDefault`.
pub open spec fn last_override(s: Seq<AttemptFailureDecision>) -> AttemptFailureDecision
    decreases s.len(),
{
    if s.len() == 0 {
        AttemptFailureDecision::UseDefault
    } else if s.last() is UseDefault {
        last_override(s.drop_last())
    } else {
        s.last()
    }
}

/// Resolves the decisions of all failure listeners into one: the last one that
/// is not [`AttemptFailureDecision::UseDefault`], or `UseDefault`.
pub fn failure_decision(decisions: &Vec<AttemptFailureDecision>) -> (r: AttemptFailureDecision)
    ensures
        r == last_override(decisions@),
        r is UseDefault <==> forall|i: int| 0 <= i < decisions@.len() ==> #[trigger] decisions@[i] is UseDefault,
        !(r is UseDefault) ==> exists|i: int|
            0 <= i < decisions@.len() && #[trigger] decisions@[i] == r && forall|j: int|
                i < j < decisions@.len() ==> #[trigger] decisions@[j] is UseDefault,
{
    let mut decision = AttemptFailureDecision::UseDefault;
    let mut i: usize = 0;
    while i < decisions.len()
        invariant
            i <= decisions@.len(),
            decision == last_override(decisions@.take(i as int)),
        decreases decisions.len() - i,
    {
        assert(decisions@.take(i as int + 1).drop_last() =~= decisions@.take(i as int));
        if !decisions[i].is_use_default() {
            decision = decisions[i];
        }
        i = i + 1;
    }
    assert(decisions@.take(decisions@.len() as int) =~= decisions@);
    proof {
        law_combined_decision_is_last_explicit(decisions@);
    }
    decision
}

/// The combined decision of the failure listeners' decisions `s` is
/// `UseDefault` exactly when every listener returned `UseDefault`; otherwise
/// it is an explicit decision of some listener after which every listener
/// returned `UseDefault`, that is, the last explicit decision.
pub proof fn law_combined_decision_is_last_explicit(s: Seq<AttemptFailureDecision>)
    ensures
        last_override(s) is UseDefault <==> forall|i: int| 0 <= i < s.len() ==> #[trigger] s[i] is UseDefault,
        !(last_override(s) is UseDefault) ==> exists|i: int|
            0 <= i < s.len() && #[trigger] s[i] == last_override(s) && forall|j: int|
                i < j < s.len() ==> #[trigger] s[j] is UseDefault,
    decreases s.len(),
{
    if s.len() > 0 {
        let p = s.drop_last();
        law_combined_decision_is_last_explicit(p);
        assert forall|i: int| 0 <= i < p.len() implies p[i] == s[i] by {}
        if s.last() is UseDefault {
            if !(last_override(p) is UseDefault) {
                let i = choose|i: int|
                    0 <= i < p.len() && #[trigger] p[i] == last_override(p) && forall|j: int|
                        i < j < p.len() ==> #[trigger] p[j] is UseDefault;
                assert(s[i] == last_override(s));
                assert forall|j: int| i < j < s.len() implies #[trigger] s[j] is UseDefault by {
                    if j < p.len() {
                        assert(p[j] is UseDefault);
                    }
                }
            } else {
                assert forall|i: int| 0 <= i < s.len() implies #[trigger] s[i] is UseDefault by {
                    if i < p.len() {
                        assert(p[i] is UseDefault);
                    }
                }
            }
        } else {
            assert(s[s.len() - 1] == last_override(s));
        }
    }
}

/// The effective decision for a failure after applying the default policy:
/// an explicit decision stands; a default decision for a timeout follows the
/// configured timeout policy; a default decision for a panic or executor
/// failure aborts; otherwise the decision stays `UseDefault`.
pub open spec fn resolve_spec<E>(
    attempt_timeout: Option<AttemptTimeoutOption>,
    decision: AttemptFailureDecision,
    failure: AttemptFailure<E>,
) -> AttemptFailureDecision {
    if !(decision is UseDefault) {
        decision
    } else if failure is Timeout && attempt_timeout is Some {
        match attempt_timeout.unwrap()@.1 {
            AttemptTimeoutPolicy::Retry => AttemptFailureDecision::Retry,
            AttemptTimeoutPolicy::Abort => AttemptFailureDecision::Abort,
        }
    } else if failure is Panic || failure is Executor {
        AttemptFailureDecision::Abort
    } else {
        AttemptFailureDecision::UseDefault
    }
}

/// The delay before the next attempt: an explicit `RetryAfter` delay; for a
/// default decision the retry-after hint when present; otherwise the policy
/// delay.
pub open spec fn retry_delay_spec(
    decision: AttemptFailureDecision,
    hint: Option<Duration>,
    policy_delay: Duration,
) -> Duration {
    match decision {
        AttemptFailureDecision::RetryAfter(d) => d,
        AttemptFailureDecision::UseDefault => match hint {
            Some(h) => h,
            None => policy_delay,
        },
        _ => policy_delay,
    }
}

/// Selects the delay used before the next retry.
///
/// `policy_delay` is the jittered delay of the configured delay strategy for
/// the failed attempt.
pub fn retry_delay(
    decision: AttemptFailureDecision,
    hint: Option<Duration>,
    policy_delay: Duration,
) -> (r: Duration)
    ensures
        r == retry_delay_spec(decision, hint, policy_delay),
{
    match decision {
        AttemptFailureDecision::RetryAfter(delay) => delay,
        AttemptFailureDecision::UseDefault => match hint {
            Some(h) => h,
            None => policy_delay,
        },
        AttemptFailureDecision::Retry | AttemptFailureDecision::Abort => policy_delay,
    }
}

/// The decision of a listener that retries application errors a predicate
/// accepts: for an application error, `Retry` when `accepted` (the
/// predicate's answer for that error) and `Abort` otherwise; for a timeout,
/// panic or executor failure, `UseDefault` whatever `accepted` is.
pub fn error_predicate_decision<E>(failure: &AttemptFailure<E>, accepted: bool) -> (r: AttemptFailureDecision)
    ensures
        r == if failure is Error {
            if accepted {
                AttemptFailureDecision::Retry
            } else {
                AttemptFailureDecision::Abort
            }
        } else {
            AttemptFailureDecision::UseDefault
        },
{
    match failure {
        AttemptFailure::Error(_) => if accepted {
            AttemptFailureDecision::Retry
        } else {
            AttemptFailureDecision::Abort
        },
        AttemptFailure::Timeout | AttemptFailure::Panic(_) | AttemptFailure::Executor(_) => {
            AttemptFailureDecision::UseDefault
        },
    }
}

/// The reason a failed attempt ends the flow, if it does, checked in order:
/// an abort decision, no attempts left, the operation budget exhausted, the
/// total budget exhausted. The delay before the next attempt is not counted
/// here: a total budget that runs out during the delay stops the flow before
/// the next attempt.
pub open spec fn failure_stop_reason(
    limits: RetryLimitsView,
    attempts: u32,
    decision: AttemptFailureDecision,
    context: RetryContextView,
) -> Option<RetryErrorReason> {
    if decision is Abort {
        Some(RetryErrorReason::Aborted)
    } else if attempts >= limits.max_attempts {
        Some(RetryErrorReason::AttemptsExceeded)
    } else if budget_exhausted(limits.max_operation_elapsed, context.operation_elapsed) {
        Some(RetryErrorReason::MaxOperationElapsedExceeded)
    } else if budget_exhausted(limits.max_total_elapsed, context.total_elapsed) {
        Some(RetryErrorReason::MaxTotalElapsedExceeded)
    } else {
        None
    }
}

/// Control flow after a failed attempt.
pub enum RetryFlowAction<E> {
    /// Retry after `delay`.
    Retry {
        /// Delay before the next attempt.
        delay: Duration,
        /// Failure from the attempt that just completed.
        failure: AttemptFailure<E>,
        /// Context carrying the selected next delay.
        context: RetryContext,
    },
    /// Finish with a terminal error.
    Finished(RetryError<E>),
}

impl RetryLimits {
    /// Returns the configured attempt-timeout duration.
    pub fn attempt_timeout_duration(&self) -> (r: Option<Duration>)
        ensures
            r == configured_timeout(self@),
    {
        match self.attempt_timeout() {
            Some(t) => Some(t.timeout()),
            None => None,
        }
    }

    /// Returns user operation time left before the operation budget is
    /// exhausted; `None` when the budget is unlimited.
    pub fn remaining_operation_elapsed(&self, operation_elapsed: Duration) -> (r: Option<Duration>)
        ensures
            nanos_opt(r) == remaining_spec(self@.max_operation_elapsed, operation_elapsed),
    {
        match self.max_operation_elapsed() {
            Some(m) => Some(saturating_sub(m, operation_elapsed)),
            None => None,
        }
    }

    /// Returns time left before the total budget is exhausted; `None` when the
    /// budget is unlimited.
    pub fn remaining_total_elapsed(&self, total_elapsed: Duration) -> (r: Option<Duration>)
        ensures
            nanos_opt(r) == remaining_spec(self@.max_total_elapsed, total_elapsed),
    {
        match self.max_total_elapsed() {
            Some(m) => Some(saturating_sub(m, total_elapsed)),
            None => None,
        }
    }

    /// Returns whether the operation budget is set and `operation_elapsed`
    /// has reached it.
    pub fn operation_budget_exhausted(&self, operation_elapsed: Duration) -> (r: bool)
        ensures
            r == budget_exhausted(self@.max_operation_elapsed, operation_elapsed),
    {
        match self.max_operation_elapsed() {
            Some(m) => le(&m, &operation_elapsed),
            None => false,
        }
    }

    /// Returns whether the total budget is set and `total_elapsed` has reached
    /// it.
    pub fn total_budget_exhausted(&self, total_elapsed: Duration) -> (r: bool)
        ensures
            r == budget_exhausted(self@.max_total_elapsed, total_elapsed),
    {
        match self.max_total_elapsed() {
            Some(m) => le(&m, &total_elapsed),
            None => false,
        }
    }

    /// Returns the effective timeout of the next attempt: the shortest of the
    /// configured attempt timeout and the remaining operation and total
    /// budgets. A configured timeout wins ties so that its timeout policy
    /// remains observable; the operation budget wins a tie with the total
    /// budget.
    pub fn effective_attempt_timeout(&self, operation_elapsed: Duration, total_elapsed: Duration) -> (r: EffectiveAttemptTimeout)
        ensures
            (nanos_opt(r.duration), r.source) == effective_timeout_spec(
                nanos_opt(configured_timeout(self@)),
                remaining_spec(self@.max_operation_elapsed, operation_elapsed),
                remaining_spec(self@.max_total_elapsed, total_elapsed),
            ),
    {
        let configured = self.attempt_timeout_duration();
        let op = self.remaining_operation_elapsed(operation_elapsed);
        let total = self.remaining_total_elapsed(total_elapsed);
        let budget: Option<(Duration, AttemptTimeoutSource)> = match (op, total) {
            (Some(o), Some(t)) => if le(&o, &t) {
                Some((o, AttemptTimeoutSource::MaxOperationElapsed))
            } else {
                Some((t, AttemptTimeoutSource::MaxTotalElapsed))
            },
            (Some(o), None) => Some((o, AttemptTimeoutSource::MaxOperationElapsed)),
            (None, Some(t)) => Some((t, AttemptTimeoutSource::MaxTotalElapsed)),
            (None, None) => None,
        };
        match (configured, budget) {
            (None, None) => EffectiveAttemptTimeout::new(None, None),
            (Some(c), None) => EffectiveAttemptTimeout::new(Some(c), Some(AttemptTimeoutSource::Configured)),
            (None, Some((b, source))) => EffectiveAttemptTimeout::new(Some(b), Some(source)),
            (Some(c), Some((b, source))) => if le(&c, &b) {
                EffectiveAttemptTimeout::new(Some(c), Some(AttemptTimeoutSource::Configured))
            } else {
                EffectiveAttemptTimeout::new(Some(b), Some(source))
            },
        }
    }

    /// Builds a context snapshot for one event of a retry flow.
    pub fn context(
        &self,
        attempt: u32,
        operation_elapsed: Duration,
        total_elapsed: Duration,
        attempt_elapsed: Duration,
        timeout: EffectiveAttemptTimeout,
    ) -> (r: RetryContext)
        ensures
            r@ == context_spec(self@, attempt, operation_elapsed, total_elapsed, attempt_elapsed, timeout),
            r@.attempt == attempt,
            r@.max_attempts == self@.max_attempts,
            r@.max_operation_elapsed == self@.max_operation_elapsed,
            r@.max_total_elapsed == self@.max_total_elapsed,
            r@.operation_elapsed == operation_elapsed,
            r@.total_elapsed == total_elapsed,
            r@.attempt_elapsed == attempt_elapsed,
            r@.attempt_timeout == timeout.duration,
            r@.attempt_timeout_source == timeout.source,
            r@.next_delay is None,
            r@.retry_after_hint is None,
            r@.unreaped_worker_count == 0,
    {
        RetryContext::from_parts(
            RetryContextParts {
                attempt,
                max_attempts: self.max_attempts(),
                max_operation_elapsed: self.max_operation_elapsed(),
                max_total_elapsed: self.max_total_elapsed(),
                operation_elapsed,
                total_elapsed,
                attempt_elapsed,
                attempt_timeout: timeout.duration,
            },
        ).with_attempt_timeout_source(timeout.source)
    }

    /// Resolves the effective failure decision after applying the default
    /// policy for timeouts, panics and executor failures.
    pub fn resolve_failure_decision<E>(
        &self,
        decision: AttemptFailureDecision,
        failure: &AttemptFailure<E>,
    ) -> (r: AttemptFailureDecision)
        ensures
            r == resolve_spec(self@.attempt_timeout, decision, *failure),
    {
        if !decision.is_use_default() {
            return decision;
        }
        match failure {
            AttemptFailure::Timeout => match self.attempt_timeout() {
                Some(t) => match t.policy() {
                    AttemptTimeoutPolicy::Retry => AttemptFailureDecision::Retry,
                    AttemptTimeoutPolicy::Abort => AttemptFailureDecision::Abort,
                },
                None => AttemptFailureDecision::UseDefault,
            },
            AttemptFailure::Panic(_) | AttemptFailure::Executor(_) => AttemptFailureDecision::Abort,
            AttemptFailure::Error(_) => AttemptFailureDecision::UseDefault,
        }
    }

    /// Handles one failed attempt.
    ///
    /// `context` is the snapshot after the attempt, carrying the retry-after
    /// hint; `listener_decision` is the resolved decision of the failure
    /// listeners; `policy_delay` is the delay of the configured strategy for
    /// this attempt. The result is a retry after the selected delay, or a
    /// terminal error for the first stop reason that applies (see
    /// [`failure_stop_reason`]).
    pub fn handle_failure<E>(
        &self,
        attempts: u32,
        failure: AttemptFailure<E>,
        context: RetryContext,
        listener_decision: AttemptFailureDecision,
        policy_delay: Duration,
    ) -> (r: RetryFlowAction<E>)
        ensures
            ({
                let decision = resolve_spec(self@.attempt_timeout, listener_decision, failure);
                let delay = retry_delay_spec(decision, context@.retry_after_hint, policy_delay);
                let reason = failure_stop_reason(self@, attempts, decision, context@);
                match r {
                    RetryFlowAction::Finished(e) => {
                        &&& reason == Some(e.spec_reason())
                        &&& e.spec_last_failure() == Some(failure)
                        &&& e.spec_context() == context
                    },
                    RetryFlowAction::Retry { delay: d, failure: f, context: c } => {
                        &&& reason is None
                        &&& d == delay
                        &&& f == failure
                        &&& c@ == (RetryContextView { next_delay: Some(delay), ..context@ })
                    },
                }
            }),
    {
        let hint = context.retry_after_hint();
        let decision = self.resolve_failure_decision(listener_decision, &failure);
        if decision.is_abort() {
            return RetryFlowAction::Finished(RetryError::new(RetryErrorReason::Aborted, Some(failure), context));
        }
        if attempts >= self.max_attempts() {
            return RetryFlowAction::Finished(
                RetryError::new(RetryErrorReason::AttemptsExceeded, Some(failure), context),
            );
        }
        if self.operation_budget_exhausted(context.operation_elapsed()) {
            return RetryFlowAction::Finished(
                RetryError::new(RetryErrorReason::MaxOperationElapsedExceeded, Some(failure), context),
            );
        }
        if self.total_budget_exhausted(context.total_elapsed()) {
            return RetryFlowAction::Finished(
                RetryError::new(RetryErrorReason::MaxTotalElapsedExceeded, Some(failure), context),
            );
        }
        let delay = retry_delay(decision, hint, policy_delay);
        let context = context.with_next_delay(delay);
        RetryFlowAction::Retry { delay, failure, context }
    }
}

} // verus!
