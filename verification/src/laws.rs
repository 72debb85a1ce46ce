//! Properties of the retry decisions that hold for every input.

use std::time::Duration;
use vstd::prelude::*;

use crate::duration::duration_nanos;
use crate::error::{AttemptFailure, RetryErrorReason};
use crate::event::{AttemptFailureDecision, AttemptTimeoutSource, RetryContextView};
use crate::executor::{
    budget_exhausted, context_spec, effective_timeout_spec, failure_stop_reason, last_override, resolve_spec,
    retry_delay_spec, will_exceed_elapsed_spec, EffectiveAttemptTimeout,
};
use crate::options::{AttemptTimeoutOption, AttemptTimeoutPolicy, RetryLimitsView};

verus! {

/// The effective attempt timeout is the smallest of the present bounds: it
/// exists exactly when some bound is present, it is one of them (the one its
/// source names), and it does not exceed any of them.
pub proof fn law_effective_timeout_is_minimum(
    configured: Option<nat>,
    remaining_operation: Option<nat>,
    remaining_total: Option<nat>,
)
    ensures
        ({
            let (d, source) = effective_timeout_spec(configured, remaining_operation, remaining_total);
            &&& (d is Some <==> (configured is Some || remaining_operation is Some || remaining_total is Some))
            &&& (d is Some <==> source is Some)
            &&& (source == Some(AttemptTimeoutSource::Configured) ==> d == configured)
            &&& (source == Some(AttemptTimeoutSource::MaxOperationElapsed) ==> d == remaining_operation)
            &&& (source == Some(AttemptTimeoutSource::MaxTotalElapsed) ==> d == remaining_total)
            &&& (d matches Some(x) ==> (configured matches Some(c) ==> x <= c))
            &&& (d matches Some(x) ==> (remaining_operation matches Some(o) ==> x <= o))
            &&& (d matches Some(x) ==> (remaining_total matches Some(t) ==> x <= t))
        }),
{
}

/// A configured attempt timeout that does not exceed the remaining budgets is
/// the one enforced, so that its timeout policy applies.
pub proof fn law_configured_timeout_wins_ties(c: nat, remaining_operation: Option<nat>, remaining_total: Option<nat>)
    requires
        remaining_operation matches Some(o) ==> c <= o,
        remaining_total matches Some(t) ==> c <= t,
    ensures
        effective_timeout_spec(Some(c), remaining_operation, remaining_total) == (Some(c), Some(
            AttemptTimeoutSource::Configured,
        )),
{
}

/// An abort decision always ends the flow with the reason `Aborted`, whatever
/// the attempt count and budgets.
pub proof fn law_abort_stops_flow(limits: RetryLimitsView, attempts: u32, context: RetryContextView)
    ensures
        failure_stop_reason(limits, attempts, AttemptFailureDecision::Abort, context) == Some(
            RetryErrorReason::Aborted,
        ),
{
}

/// Retrying obeys the attempt and elapsed-time limits: a failed attempt is
/// retried only when an attempt is left and neither the operation budget nor
/// the total budget is exhausted.
pub proof fn law_retry_obeys_limits(
    limits: RetryLimitsView,
    attempts: u32,
    decision: AttemptFailureDecision,
    context: RetryContextView,
)
    requires
        failure_stop_reason(limits, attempts, decision, context) is None,
    ensures
        !(decision is Abort),
        attempts < limits.max_attempts,
        !budget_exhausted(limits.max_operation_elapsed, context.operation_elapsed),
        !budget_exhausted(limits.max_total_elapsed, context.total_elapsed),
{
}

/// When no attempt is left, a failed attempt that is not aborted ends the
/// flow with `AttemptsExceeded`, even when a listener asked for a retry.
pub proof fn law_no_attempt_left_stops_flow(
    limits: RetryLimitsView,
    attempts: u32,
    decision: AttemptFailureDecision,
    context: RetryContextView,
)
    requires
        attempts >= limits.max_attempts,
        !(decision is Abort),
    ensures
        failure_stop_reason(limits, attempts, decision, context) == Some(
            RetryErrorReason::AttemptsExceeded,
        ),
{
}

/// An explicit listener decision overrides the default policy for every
/// failure kind.
pub proof fn law_explicit_decision_wins<E>(
    attempt_timeout: Option<AttemptTimeoutOption>,
    decision: AttemptFailureDecision,
    failure: AttemptFailure<E>,
)
    requires
        !(decision is UseDefault),
    ensures
        resolve_spec(attempt_timeout, decision, failure) == decision,
{
}

/// By default, panics and executor failures abort the flow, while
/// application errors keep the default decision.
pub proof fn law_default_policy_by_failure_kind<E>(
    attempt_timeout: Option<AttemptTimeoutOption>,
    failure: AttemptFailure<E>,
)
    ensures
        (failure is Panic || failure is Executor) ==> resolve_spec(
            attempt_timeout,
            AttemptFailureDecision::UseDefault,
            failure,
        ) == AttemptFailureDecision::Abort,
        failure is Error ==> resolve_spec(attempt_timeout, AttemptFailureDecision::UseDefault, failure)
            == AttemptFailureDecision::UseDefault,
{
}

/// An explicit `RetryAfter` delay is used as is; for a default decision a
/// retry-after hint replaces the policy delay.
pub proof fn law_retry_delay_sources(d: Duration, hint: Duration, policy_delay: Duration, other: Option<Duration>)
    ensures
        retry_delay_spec(AttemptFailureDecision::RetryAfter(d), other, policy_delay) == d,
        retry_delay_spec(AttemptFailureDecision::UseDefault, Some(hint), policy_delay) == hint,
        retry_delay_spec(AttemptFailureDecision::UseDefault, None, policy_delay) == policy_delay,
        retry_delay_spec(AttemptFailureDecision::Retry, other, policy_delay) == policy_delay,
{
}

/// Failure listeners that all return `UseDefault` leave the decision to the
/// policy, and a last listener with an explicit decision has the last word.
pub proof fn law_last_listener_decides(s: Seq<AttemptFailureDecision>, d: AttemptFailureDecision)
    ensures
        (forall|i: int| 0 <= i < s.len() ==> #[trigger] s[i] is UseDefault) ==> last_override(s)
            is UseDefault,
        !(d is UseDefault) ==> last_override(s.push(d)) == d,
    decreases s.len(),
{
    if s.len() > 0 {
        law_last_listener_decides(s.drop_last(), d);
        if forall|i: int| 0 <= i < s.len() ==> #[trigger] s[i] is UseDefault {
            assert(s.last() is UseDefault);
            assert forall|i: int| 0 <= i < s.drop_last().len() implies #[trigger] s.drop_last()[i] is UseDefault by {
                assert(s.drop_last()[i] == s[i]);
            }
        }
    }
    assert(s.push(d).drop_last() =~= s);
}

/// A failed attempt that is not aborted is retried whenever the limits allow
/// it: an attempt is left and neither the operation budget nor the total
/// budget is exhausted.
pub proof fn law_retry_when_limits_allow(
    limits: RetryLimitsView,
    attempts: u32,
    decision: AttemptFailureDecision,
    context: RetryContextView,
)
    requires
        !(decision is Abort),
        attempts < limits.max_attempts,
        !budget_exhausted(limits.max_operation_elapsed, context.operation_elapsed),
        !budget_exhausted(limits.max_total_elapsed, context.total_elapsed),
    ensures
        failure_stop_reason(limits, attempts, decision, context) is None,
{
}

/// With a configured attempt timeout, a timed-out attempt that no listener
/// decided on follows the timeout policy: `Retry` retries, `Abort` aborts.
pub proof fn law_timeout_follows_policy<E>(attempt_timeout: AttemptTimeoutOption)
    ensures
        resolve_spec(Some(attempt_timeout), AttemptFailureDecision::UseDefault, AttemptFailure::<E>::Timeout)
            == match attempt_timeout@.1 {
            AttemptTimeoutPolicy::Retry => AttemptFailureDecision::Retry,
            AttemptTimeoutPolicy::Abort => AttemptFailureDecision::Abort,
        },
{
}

/// Every context the policy builds reports the flow's own limits and the
/// given progress: the attempt, the maximum attempts, the operation budget
/// and the total budget of `limits` (each where it belongs), the elapsed
/// times and the effective timeout passed in, and no delay, hint or unreaped
/// worker yet.
pub proof fn law_context_carries_limits(
    limits: RetryLimitsView,
    attempt: u32,
    operation_elapsed: Duration,
    total_elapsed: Duration,
    attempt_elapsed: Duration,
    timeout: EffectiveAttemptTimeout,
)
    ensures
        ({
            let c = context_spec(limits, attempt, operation_elapsed, total_elapsed, attempt_elapsed, timeout);
            &&& c.attempt == attempt
            &&& c.max_attempts == limits.max_attempts
            &&& c.max_operation_elapsed == limits.max_operation_elapsed
            &&& c.max_total_elapsed == limits.max_total_elapsed
            &&& c.operation_elapsed == operation_elapsed
            &&& c.total_elapsed == total_elapsed
            &&& c.attempt_elapsed == attempt_elapsed
            &&& c.attempt_timeout == timeout.duration
            &&& c.attempt_timeout_source == timeout.source
            &&& c.next_delay is None
            &&& c.retry_after_hint is None
            &&& c.unreaped_worker_count == 0
        }),
{
}

/// A listener that returns `UseDefault` never changes the combined decision:
/// appending its decision to any listeners' decisions leaves the combination
/// as it was, whether that was an abort, a retry or the default.
pub proof fn law_use_default_listener_changes_nothing(s: Seq<AttemptFailureDecision>)
    ensures
        last_override(s.push(AttemptFailureDecision::UseDefault)) == last_override(s),
{
    assert(s.push(AttemptFailureDecision::UseDefault).drop_last() =~= s);
}

/// Sleeping a delay that would overflow `Duration::MAX` always counts as
/// exceeding the budget.
pub proof fn law_overflowing_sleep_exceeds_budget(elapsed: Duration, delay: Duration, max_elapsed: Duration)
    requires
        duration_nanos(elapsed) + duration_nanos(delay) > crate::duration::max_duration_nanos(),
    ensures
        will_exceed_elapsed_spec(elapsed, delay, max_elapsed),
{
}

} // verus!
