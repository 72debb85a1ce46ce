use std::time::Duration;

use qubit_retry::executor::{FlowPhase, RetryFlow, RetryStep, RunMode};
use qubit_retry::{
    AttemptExecutorError, AttemptFailure, AttemptFailureDecision, AttemptPanic, AttemptTimeoutOption,
    AttemptTimeoutSource, RetryError, RetryErrorReason, RetryLimits,
};

fn ms(n: u64) -> Duration {
    Duration::from_millis(n)
}

fn limits(max_attempts: u32, op: Option<Duration>, total: Option<Duration>, timeout: Option<AttemptTimeoutOption>) -> RetryLimits {
    RetryLimits::new(max_attempts, op, total, timeout).expect("limits should be valid")
}

fn start(limits: RetryLimits, mode: RunMode) -> RetryFlow<&'static str> {
    match RetryFlow::new(limits, mode) {
        Ok(flow) => flow,
        Err(error) => panic!("flow should start: {error:?}"),
    }
}

fn expect_retry(step: RetryStep<&'static str>) -> Duration {
    match step {
        RetryStep::Retry { delay, context } => {
            assert_eq!(context.next_delay(), Some(delay));
            delay
        }
        RetryStep::Finished(error) => panic!("expected a retry, got {error:?}"),
    }
}

fn expect_finished(step: RetryStep<&'static str>) -> RetryError<&'static str> {
    match step {
        RetryStep::Retry { delay, .. } => panic!("expected the flow to finish, got a retry after {delay:?}"),
        RetryStep::Finished(error) => error,
    }
}

#[test]
fn test_flow_retries_until_attempts_are_exhausted() {
    let mut flow = start(limits(3, None, None, None), RunMode::Direct);
    for attempt in 1..=3u32 {
        assert_eq!(flow.phase(), FlowPhase::Ready);
        let context = flow.begin_attempt(ms(10 * attempt as u64)).expect("attempt should begin");
        assert_eq!(context.attempt(), attempt);
        assert_eq!(context.max_attempts(), 3);
        assert_eq!(context.max_retries(), 2);
        assert_eq!(context.attempt_timeout(), None);
        assert_eq!(flow.current_timeout(), None);
        let (failure, context) = flow
            .fail(AttemptFailure::Error("boom"), ms(1), ms(10 * attempt as u64 + 1), true)
            .expect("an application error is handed back for a decision");
        assert_eq!(failure, AttemptFailure::Error("boom"));
        assert_eq!(context.attempt_elapsed(), ms(1));
        assert_eq!(context.operation_elapsed(), ms(attempt as u64));
        let step = flow.decide(failure, context, AttemptFailureDecision::UseDefault, ms(5));
        if attempt < 3 {
            assert_eq!(expect_retry(step), ms(5));
            assert_eq!(flow.last_failure(), Some(&AttemptFailure::Error("boom")));
        } else {
            let error = expect_finished(step);
            assert_eq!(error.reason(), RetryErrorReason::AttemptsExceeded);
            assert_eq!(error.attempts(), 3);
            assert_eq!(error.last_error(), Some(&"boom"));
        }
    }
    assert_eq!(flow.phase(), FlowPhase::Finished);
    assert_eq!(flow.attempts(), 3);
    assert_eq!(flow.operation_elapsed(), ms(3));
}

#[test]
fn test_flow_success_ends_flow_with_context() {
    let mut flow = start(limits(2, None, None, None), RunMode::Direct);
    flow.begin_attempt(Duration::ZERO).expect("attempt should begin");
    let context = flow.succeed(ms(7), ms(8));
    assert_eq!(flow.phase(), FlowPhase::Finished);
    assert_eq!(context.attempt(), 1);
    assert_eq!(context.operation_elapsed(), ms(7));
    assert_eq!(context.total_elapsed(), ms(8));
    assert_eq!(context.attempt_elapsed(), ms(7));
}

#[test]
fn test_flow_direct_mode_rejects_configured_attempt_timeout() {
    let timeout = AttemptTimeoutOption::retry(ms(50));
    match RetryFlow::<&'static str>::new(limits(3, None, None, Some(timeout)), RunMode::Direct) {
        Ok(_) => panic!("direct mode cannot enforce an attempt timeout"),
        Err(error) => {
            assert_eq!(error.reason(), RetryErrorReason::UnsupportedOperation);
            assert_eq!(error.attempts(), 0);
            assert!(error.last_failure().is_none());
            assert_eq!(error.context().attempt_timeout(), Some(ms(50)));
            assert_eq!(error.context().attempt_timeout_source(), Some(AttemptTimeoutSource::Configured));
        }
    }
    assert!(RetryFlow::<&'static str>::new(limits(3, None, None, Some(timeout)), RunMode::Worker).is_ok());
    assert!(RetryFlow::<&'static str>::new(limits(3, None, None, Some(timeout)), RunMode::Async).is_ok());
}

#[test]
fn test_flow_abort_decision_stops_immediately() {
    let mut flow = start(limits(5, None, None, None), RunMode::Direct);
    flow.begin_attempt(Duration::ZERO).expect("attempt should begin");
    let (failure, context) = flow.fail(AttemptFailure::Error("fatal"), ms(1), ms(1), true).expect("decision");
    let error = expect_finished(flow.decide(failure, context, AttemptFailureDecision::Abort, ms(5)));
    assert_eq!(error.reason(), RetryErrorReason::Aborted);
    assert_eq!(error.attempts(), 1);
    assert_eq!(error.into_last_error(), Some("fatal"));
}

#[test]
fn test_flow_panic_and_executor_failures_abort_by_default() {
    let mut flow = start(limits(5, None, None, None), RunMode::Worker);
    flow.begin_attempt(Duration::ZERO).expect("attempt should begin");
    let panic = AttemptFailure::Panic(AttemptPanic::new("kaboom"));
    let (failure, context) = flow.fail(panic, ms(1), ms(1), true).expect("decision");
    let error = expect_finished(flow.decide(failure, context, AttemptFailureDecision::UseDefault, ms(5)));
    assert_eq!(error.reason(), RetryErrorReason::Aborted);
    assert_eq!(error.last_failure().and_then(|f| f.as_panic()).map(|p| p.message()), Some("kaboom"));

    let mut flow = start(limits(5, None, None, None), RunMode::Worker);
    flow.begin_attempt(Duration::ZERO).expect("attempt should begin");
    let executor = AttemptFailure::Executor(AttemptExecutorError::new("spawn failed"));
    let (failure, context) = flow.fail(executor, ms(1), ms(1), true).expect("decision");
    let error = expect_finished(flow.decide(failure, context, AttemptFailureDecision::UseDefault, ms(5)));
    assert_eq!(error.reason(), RetryErrorReason::Aborted);
}

#[test]
fn test_flow_explicit_retry_overrides_panic_default() {
    let mut flow = start(limits(5, None, None, None), RunMode::Worker);
    flow.begin_attempt(Duration::ZERO).expect("attempt should begin");
    let panic = AttemptFailure::Panic(AttemptPanic::new("kaboom"));
    let (failure, context) = flow.fail(panic, ms(1), ms(1), true).expect("decision");
    let delay = expect_retry(flow.decide(failure, context, AttemptFailureDecision::Retry, ms(9)));
    assert_eq!(delay, ms(9));
    assert_eq!(flow.phase(), FlowPhase::Ready);
}

#[test]
fn test_flow_retry_after_and_hint_select_delay() {
    let mut flow = start(limits(5, None, None, None), RunMode::Direct);
    flow.begin_attempt(Duration::ZERO).expect("attempt should begin");
    let (failure, context) = flow.fail(AttemptFailure::Error("e"), ms(1), ms(1), true).expect("decision");
    let delay = expect_retry(flow.decide(failure, context, AttemptFailureDecision::RetryAfter(ms(42)), ms(5)));
    assert_eq!(delay, ms(42));

    flow.begin_attempt(ms(50)).expect("attempt should begin");
    let (failure, context) = flow.fail(AttemptFailure::Error("e"), ms(1), ms(51), true).expect("decision");
    let context = context.with_retry_after_hint(Some(ms(77)));
    let delay = expect_retry(flow.decide(failure, context, AttemptFailureDecision::UseDefault, ms(5)));
    assert_eq!(delay, ms(77));

    flow.begin_attempt(ms(130)).expect("attempt should begin");
    let (failure, context) = flow.fail(AttemptFailure::Error("e"), ms(1), ms(131), true).expect("decision");
    let context = context.with_retry_after_hint(Some(ms(77)));
    let delay = expect_retry(flow.decide(failure, context, AttemptFailureDecision::Retry, ms(5)));
    assert_eq!(delay, ms(5));
}

#[test]
fn test_flow_timeout_policy_abort_and_retry() {
    let abort = AttemptTimeoutOption::abort(ms(20));
    let mut flow = start(limits(3, None, None, Some(abort)), RunMode::Worker);
    flow.begin_attempt(Duration::ZERO).expect("attempt should begin");
    assert_eq!(flow.current_timeout(), Some(ms(20)));
    let (failure, context) = flow.fail(AttemptFailure::Timeout, ms(20), ms(20), true).expect("decision");
    let error = expect_finished(flow.decide(failure, context, AttemptFailureDecision::UseDefault, ms(5)));
    assert_eq!(error.reason(), RetryErrorReason::Aborted);
    assert_eq!(error.last_failure(), Some(&AttemptFailure::Timeout));

    let retry = AttemptTimeoutOption::retry(ms(20));
    let mut flow = start(limits(3, None, None, Some(retry)), RunMode::Worker);
    flow.begin_attempt(Duration::ZERO).expect("attempt should begin");
    let (failure, context) = flow.fail(AttemptFailure::Timeout, ms(20), ms(20), true).expect("decision");
    assert_eq!(expect_retry(flow.decide(failure, context, AttemptFailureDecision::UseDefault, ms(5))), ms(5));
}

#[test]
fn test_flow_unreaped_worker_stops_flow() {
    let retry = AttemptTimeoutOption::retry(ms(20));
    let mut flow = start(limits(3, None, None, Some(retry)), RunMode::Worker);
    flow.begin_attempt(Duration::ZERO).expect("attempt should begin");
    match flow.fail(AttemptFailure::Timeout, ms(20), ms(25), false) {
        Ok(_) => panic!("a worker that is still running ends the flow"),
        Err(error) => {
            assert_eq!(error.reason(), RetryErrorReason::WorkerStillRunning);
            assert_eq!(error.context().unreaped_worker_count(), 1);
            assert_eq!(error.last_failure(), Some(&AttemptFailure::Timeout));
        }
    }
    assert_eq!(flow.phase(), FlowPhase::Finished);
}

#[test]
fn test_flow_elapsed_budget_timeout_ends_flow_with_budget_reason() {
    let retry = AttemptTimeoutOption::retry(ms(100));
    let mut flow = start(limits(3, Some(ms(30)), None, Some(retry)), RunMode::Async);
    let context = flow.begin_attempt(Duration::ZERO).expect("attempt should begin");
    assert_eq!(context.attempt_timeout(), Some(ms(30)));
    assert_eq!(context.attempt_timeout_source(), Some(AttemptTimeoutSource::MaxOperationElapsed));
    match flow.fail(AttemptFailure::Timeout, ms(30), ms(30), true) {
        Ok(_) => panic!("a timeout chosen by the operation budget ends the flow"),
        Err(error) => assert_eq!(error.reason(), RetryErrorReason::MaxOperationElapsedExceeded),
    }

    let mut flow = start(limits(3, None, Some(ms(40)), Some(retry)), RunMode::Worker);
    let context = flow.begin_attempt(ms(15)).expect("attempt should begin");
    assert_eq!(context.attempt_timeout(), Some(ms(25)));
    assert_eq!(context.attempt_timeout_source(), Some(AttemptTimeoutSource::MaxTotalElapsed));
    match flow.fail(AttemptFailure::Timeout, ms(25), ms(40), true) {
        Ok(_) => panic!("a timeout chosen by the total budget ends the flow"),
        Err(error) => assert_eq!(error.reason(), RetryErrorReason::MaxTotalElapsedExceeded),
    }
}

#[test]
fn test_flow_configured_timeout_wins_tie_with_budget() {
    let retry = AttemptTimeoutOption::retry(ms(30));
    let mut flow = start(limits(3, Some(ms(30)), None, Some(retry)), RunMode::Worker);
    let context = flow.begin_attempt(Duration::ZERO).expect("attempt should begin");
    assert_eq!(context.attempt_timeout(), Some(ms(30)));
    assert_eq!(context.attempt_timeout_source(), Some(AttemptTimeoutSource::Configured));
}

#[test]
fn test_flow_budgets_checked_before_attempt() {
    let mut flow = start(limits(5, Some(ms(10)), None, None), RunMode::Direct);
    flow.begin_attempt(Duration::ZERO).expect("attempt should begin");
    let (failure, context) = flow.fail(AttemptFailure::Error("slow"), ms(10), ms(10), true).expect("decision");
    let error = expect_finished(flow.decide(failure, context, AttemptFailureDecision::Retry, ms(1)));
    assert_eq!(error.reason(), RetryErrorReason::MaxOperationElapsedExceeded);

    let mut flow = start(limits(5, None, Some(ms(10)), None), RunMode::Direct);
    match flow.begin_attempt(ms(10)) {
        Ok(_) => panic!("an exhausted total budget prevents the attempt"),
        Err(error) => {
            assert_eq!(error.reason(), RetryErrorReason::MaxTotalElapsedExceeded);
            assert_eq!(error.attempts(), 0);
        }
    }
}

#[test]
fn test_flow_total_budget_checked_after_failure_and_before_attempt() {
    let mut flow = start(limits(5, None, Some(ms(100)), None), RunMode::Direct);
    flow.begin_attempt(Duration::ZERO).expect("attempt should begin");
    let (failure, context) = flow.fail(AttemptFailure::Error("e"), ms(50), ms(50), true).expect("decision");
    assert_eq!(expect_retry(flow.decide(failure, context, AttemptFailureDecision::UseDefault, ms(60))), ms(60));
    match flow.begin_attempt(ms(110)) {
        Ok(_) => panic!("the total budget ran out during the delay"),
        Err(error) => {
            assert_eq!(error.reason(), RetryErrorReason::MaxTotalElapsedExceeded);
            assert_eq!(error.last_error(), Some(&"e"));
        }
    }

    let mut flow = start(limits(5, None, Some(ms(100)), None), RunMode::Direct);
    flow.begin_attempt(Duration::ZERO).expect("attempt should begin");
    let (failure, context) = flow.fail(AttemptFailure::Error("e"), ms(100), ms(100), true).expect("decision");
    let error = expect_finished(flow.decide(failure, context, AttemptFailureDecision::UseDefault, ms(1)));
    assert_eq!(error.reason(), RetryErrorReason::MaxTotalElapsedExceeded);
}

#[test]
fn test_flow_begin_after_retry_keeps_last_failure_in_budget_error() {
    let mut flow = start(limits(5, None, Some(ms(20)), None), RunMode::Direct);
    flow.begin_attempt(Duration::ZERO).expect("attempt should begin");
    let (failure, context) = flow.fail(AttemptFailure::Error("first"), ms(1), ms(1), true).expect("decision");
    expect_retry(flow.decide(failure, context, AttemptFailureDecision::UseDefault, ms(2)));
    match flow.begin_attempt(ms(25)) {
        Ok(_) => panic!("the total budget is exhausted"),
        Err(error) => {
            assert_eq!(error.reason(), RetryErrorReason::MaxTotalElapsedExceeded);
            assert_eq!(error.last_error(), Some(&"first"));
            assert_eq!(error.attempts(), 1);
        }
    }
}
