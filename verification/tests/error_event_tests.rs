use std::time::Duration;

use qubit_retry::event::{
    AbortEvent, AbortEventBuilder, AbortReason, FailureEvent, RetryContextParts, RetryEvent, RetryEventBuilder,
    RetryReason, SuccessEvent,
};
use qubit_retry::events::{FailureContext, RetryContext as RetryNotice, SuccessContext};
use qubit_retry::executor::{
    add_elapsed, failure_decision, retry_delay, worker_disconnected_attempt_failure,
    worker_message_to_attempt_result, worker_recv_message_to_attempt_result,
    worker_spawn_error_to_attempt_failure, worker_timeout_message_to_attempt_result, AsyncValueOperation,
    BlockingAttemptMessage, EffectiveAttemptTimeout, SyncValueOperation, WorkerReceive,
};
use qubit_retry::failure::RetryError as LegacyRetryError;
use qubit_retry::{
    AttemptExecutorError, AttemptFailure, AttemptFailureDecision, AttemptPanic, AttemptTimeoutSource,
    RetryConfigError, RetryContext, RetryDecision, RetryError, RetryErrorReason,
};

fn ms(n: u64) -> Duration {
    Duration::from_millis(n)
}

#[test]
fn test_attempt_failure_accessors() {
    let error: AttemptFailure<&str> = AttemptFailure::Error("bad");
    assert_eq!(error.as_error(), Some(&"bad"));
    assert!(error.as_panic().is_none());
    assert!(!error.is_timeout());
    assert_eq!(error.clone().into_error(), Some("bad"));

    let panic: AttemptFailure<&str> = AttemptFailure::Panic(AttemptPanic::new("oops"));
    assert_eq!(panic.as_panic().map(|p| p.message()), Some("oops"));
    assert_eq!(panic.as_error(), None);
    assert_eq!(panic.into_error(), None);

    let executor: AttemptFailure<&str> = AttemptFailure::Executor(AttemptExecutorError::new("no worker"));
    assert_eq!(executor.as_executor_error().map(|e| e.message()), Some("no worker"));
    assert!(AttemptFailure::<&str>::Timeout.is_timeout());
    assert_eq!(AttemptPanic::from_string("owned".to_string()).message(), "owned");
}

#[test]
fn test_retry_config_error_keeps_key_and_message() {
    let error = RetryConfigError::invalid_value("delay", "unsupported");
    assert_eq!(error.key(), "delay");
    assert_eq!(error.message(), "unsupported");
}

#[test]
fn test_retry_error_parts() {
    let context = RetryContext::new(2, 3);
    let error = RetryError::new(RetryErrorReason::AttemptsExceeded, Some(AttemptFailure::Error(7u8)), context);
    assert_eq!(error.reason(), RetryErrorReason::AttemptsExceeded);
    assert_eq!(error.attempts(), 2);
    assert_eq!(error.context().max_attempts(), 3);
    assert_eq!(error.last_error(), Some(&7u8));
    let (reason, failure, ctx) = error.into_parts();
    assert_eq!(reason, RetryErrorReason::AttemptsExceeded);
    assert_eq!(failure, Some(AttemptFailure::Error(7u8)));
    assert_eq!(ctx, context);

    let timeout: RetryError<u8> = RetryError::new(RetryErrorReason::Aborted, Some(AttemptFailure::Timeout), context);
    assert_eq!(timeout.last_error(), None);
    assert_eq!(timeout.into_last_error(), None);
}

#[test]
fn test_retry_context_defaults_and_updates() {
    let context = RetryContext::new(1, 4);
    assert_eq!(context.attempt(), 1);
    assert_eq!(context.max_retries(), 3);
    assert_eq!(context.operation_elapsed(), Duration::ZERO);
    assert_eq!(context.next_delay(), None);
    assert_eq!(RetryContext::new(0, 0).max_retries(), 0);
    let updated = context
        .with_next_delay(ms(3))
        .with_total_elapsed(ms(9))
        .with_retry_after_hint(Some(ms(4)))
        .with_attempt_timeout_source(Some(AttemptTimeoutSource::Configured))
        .with_unreaped_worker_count(2);
    assert_eq!(updated.next_delay(), Some(ms(3)));
    assert_eq!(updated.total_elapsed(), ms(9));
    assert_eq!(updated.retry_after_hint(), Some(ms(4)));
    assert_eq!(updated.attempt_timeout_source(), Some(AttemptTimeoutSource::Configured));
    assert_eq!(updated.unreaped_worker_count(), 2);
    let kept = updated.with_attempt_timeout_source(None);
    assert_eq!(kept.attempt_timeout_source(), Some(AttemptTimeoutSource::Configured));

    let parts = RetryContextParts {
        attempt: 2,
        max_attempts: 5,
        max_operation_elapsed: Some(ms(10)),
        max_total_elapsed: None,
        operation_elapsed: ms(1),
        total_elapsed: ms(2),
        attempt_elapsed: ms(3),
        attempt_timeout: Some(ms(4)),
    };
    let from_parts = RetryContext::from_parts(parts);
    assert_eq!(from_parts.max_operation_elapsed(), Some(ms(10)));
    assert_eq!(from_parts.attempt_elapsed(), ms(3));
    assert_eq!(from_parts.attempt_timeout(), Some(ms(4)));
    assert_eq!(from_parts.attempt_timeout_source(), None);
}

#[test]
fn test_failure_decision_takes_last_explicit_listener() {
    assert_eq!(failure_decision(&vec![]), AttemptFailureDecision::UseDefault);
    assert_eq!(
        failure_decision(&vec![AttemptFailureDecision::UseDefault, AttemptFailureDecision::UseDefault]),
        AttemptFailureDecision::UseDefault
    );
    assert_eq!(
        failure_decision(&vec![
            AttemptFailureDecision::Abort,
            AttemptFailureDecision::RetryAfter(ms(5)),
            AttemptFailureDecision::UseDefault,
        ]),
        AttemptFailureDecision::RetryAfter(ms(5))
    );
    assert!(AttemptFailureDecision::UseDefault.is_use_default());
    assert!(AttemptFailureDecision::Abort.is_abort());
}

#[test]
fn test_retry_delay_sources() {
    assert_eq!(retry_delay(AttemptFailureDecision::RetryAfter(ms(1)), Some(ms(2)), ms(3)), ms(1));
    assert_eq!(retry_delay(AttemptFailureDecision::UseDefault, Some(ms(2)), ms(3)), ms(2));
    assert_eq!(retry_delay(AttemptFailureDecision::UseDefault, None, ms(3)), ms(3));
    assert_eq!(retry_delay(AttemptFailureDecision::Retry, Some(ms(2)), ms(3)), ms(3));
}

#[test]
fn test_add_elapsed_saturates() {
    assert_eq!(add_elapsed(ms(1), ms(2)), ms(3));
    assert_eq!(add_elapsed(Duration::MAX, ms(2)), Duration::MAX);
}

#[test]
fn test_effective_timeout_classifies_budget_timeouts() {
    let by_budget = EffectiveAttemptTimeout::new(Some(ms(5)), Some(AttemptTimeoutSource::MaxTotalElapsed));
    assert!(by_budget.is_max_elapsed_timeout::<u8>(&AttemptFailure::Timeout));
    assert!(!by_budget.is_max_elapsed_timeout::<u8>(&AttemptFailure::Error(1)));
    let configured = EffectiveAttemptTimeout::new(Some(ms(5)), Some(AttemptTimeoutSource::Configured));
    assert!(!configured.is_max_elapsed_timeout::<u8>(&AttemptFailure::Timeout));
}

#[test]
fn test_worker_messages_become_attempt_results() {
    assert_eq!(worker_message_to_attempt_result::<u8, &str>(BlockingAttemptMessage::Result(Ok(4))), Ok(4));
    assert_eq!(
        worker_message_to_attempt_result::<u8, &str>(BlockingAttemptMessage::Result(Err("e"))),
        Err(AttemptFailure::Error("e"))
    );
    assert_eq!(
        worker_message_to_attempt_result::<u8, &str>(BlockingAttemptMessage::Panic(AttemptPanic::new("p"))),
        Err(AttemptFailure::Panic(AttemptPanic::new("p")))
    );
    assert_eq!(
        worker_timeout_message_to_attempt_result::<u8, &str>(WorkerReceive::TimedOut),
        Err(AttemptFailure::Timeout)
    );
    let disconnected = AttemptFailure::Executor(AttemptExecutorError::new(
        "attempt worker disconnected before reporting a result",
    ));
    assert_eq!(
        worker_timeout_message_to_attempt_result::<u8, &str>(WorkerReceive::Disconnected),
        Err(disconnected.clone())
    );
    assert_eq!(worker_recv_message_to_attempt_result::<u8, &str>(None), Err(disconnected.clone()));
    assert_eq!(
        worker_recv_message_to_attempt_result::<u8, &str>(Some(BlockingAttemptMessage::Result(Ok(9)))),
        Ok(9)
    );
    assert_eq!(worker_disconnected_attempt_failure::<&str>(), disconnected);
    assert_eq!(
        worker_spawn_error_to_attempt_failure::<&str>("resource busy"),
        AttemptFailure::Executor(AttemptExecutorError::new("failed to spawn attempt worker: resource busy"))
    );
}

#[test]
fn test_sync_value_operation_captures_success() {
    let mut calls = 0u32;
    let mut operation = SyncValueOperation::new(|| {
        calls += 1;
        if calls < 2 {
            Err("not yet")
        } else {
            Ok(calls * 10)
        }
    });
    assert_eq!(operation.call(), Err(AttemptFailure::Error("not yet")));
    assert_eq!(operation.call::<&str>(), Ok(()));
    assert_eq!(operation.into_value(), 20);

    let mut recorder = SyncValueOperation::new(|| -> Result<u8, &str> { Ok(0) });
    assert_eq!(recorder.record::<&str>(Ok(5)), Ok(()));
    assert_eq!(recorder.record(Err("later")), Err(AttemptFailure::Error("later")));
    assert_eq!(recorder.into_value(), 5);
}

#[test]
fn test_async_value_operation_records_results() {
    let mut operation = AsyncValueOperation::new(|| 3u8);
    assert_eq!((operation.operation())(), 3);
    assert_eq!(operation.record::<&str>(Err("e")), Err(AttemptFailure::Error("e")));
    assert_eq!(operation.record::<&str>(Ok(11u16)), Ok(()));
    assert_eq!(operation.into_value(), 11);
}

#[test]
fn test_event_builders_carry_values() {
    let retry: RetryEvent<u8, &str> = RetryEventBuilder::new()
        .attempt_count(2)
        .max_attempts(3)
        .last_error(Some("e"))
        .next_delay(ms(5))
        .total_duration(ms(7))
        .build();
    assert_eq!(retry.attempt_count(), 2);
    assert_eq!(retry.max_attempts(), 3);
    assert_eq!(retry.last_error(), Some(&"e"));
    assert_eq!(retry.last_result(), None);
    assert_eq!(retry.next_delay(), ms(5));
    assert_eq!(retry.total_duration(), ms(7));
    assert!(retry.has_remaining_attempts());
    let last: RetryEvent<u8, &str> = RetryEvent::builder().attempt_count(3).max_attempts(3).build();
    assert!(!last.has_remaining_attempts());

    let success = SuccessEvent::builder().result("done").attempt_count(1).total_duration(ms(2)).build();
    assert_eq!(success.result(), &"done");
    assert_eq!(success.attempt_count(), 1);
    assert_eq!(success.total_duration(), ms(2));

    let failure: FailureEvent<u8, &str> =
        FailureEvent::builder().last_result(Some(4)).attempt_count(5).total_duration(ms(6)).build();
    assert_eq!(failure.last_result(), Some(&4));
    assert_eq!(failure.last_error(), None);
    assert_eq!(failure.attempt_count(), 5);
    assert_eq!(failure.total_duration(), ms(6));

    let abort: AbortEvent<u8, &str> =
        AbortEventBuilder::new().reason(AbortReason::Error("stop")).attempt_count(1).total_duration(ms(1)).build();
    assert!(matches!(abort.reason(), AbortReason::Error("stop")));
    assert_eq!(abort.attempt_count(), 1);
    let by_result: AbortEvent<u8, &str> = AbortEvent::builder().reason(AbortReason::Result(8)).build();
    assert!(matches!(by_result.reason(), AbortReason::Result(8)));
    assert_eq!(by_result.total_duration(), Duration::ZERO);
    let _reason: RetryReason<u8, &str> = RetryReason::Result(1);
}

#[test]
fn test_plain_contexts_and_decisions() {
    let success = SuccessContext { attempts: 1, elapsed: ms(1) };
    let failure = FailureContext { attempts: 2, elapsed: ms(2) };
    let notice = RetryNotice { attempt: 1, max_attempts: 3, elapsed: ms(3), next_delay: ms(4) };
    assert_eq!(success.attempts, 1);
    assert_eq!(failure.elapsed, ms(2));
    assert_eq!(notice.next_delay, ms(4));
    assert_ne!(RetryDecision::Retry, RetryDecision::Abort);
}

#[test]
fn test_legacy_retry_error_constructors() {
    let error: LegacyRetryError = LegacyRetryError::max_attempts_exceeded(3, 3);
    assert!(matches!(error, LegacyRetryError::MaxAttemptsExceeded { attempts: 3, max_attempts: 3 }));
    let error: LegacyRetryError = LegacyRetryError::max_duration_exceeded(ms(5), ms(4));
    assert!(matches!(error, LegacyRetryError::MaxDurationExceeded { .. }));
    let error: LegacyRetryError = LegacyRetryError::operation_timeout(ms(5), ms(4));
    assert!(matches!(error, LegacyRetryError::OperationTimeout { .. }));
    let error: LegacyRetryError = LegacyRetryError::aborted("stop");
    assert!(matches!(&error, LegacyRetryError::Aborted { reason } if reason == "stop"));
    let error: LegacyRetryError = LegacyRetryError::config_error("bad");
    assert!(matches!(&error, LegacyRetryError::ConfigError { message } if message == "bad"));
    let error: LegacyRetryError = LegacyRetryError::delay_strategy_error("delay");
    assert!(matches!(&error, LegacyRetryError::DelayStrategyError { message } if message == "delay"));
    let error: LegacyRetryError = LegacyRetryError::other("misc");
    assert!(matches!(&error, LegacyRetryError::Other { message } if message == "misc"));
    assert!(error.source().is_none());
    let error: LegacyRetryError<&str> = LegacyRetryError::execution_error("io");
    assert_eq!(error.source(), Some(&"io"));
    let error: LegacyRetryError<&str> = LegacyRetryError::execution_error_box("boxed");
    assert_eq!(error.source(), Some(&"boxed"));
}

#[test]
fn test_retry_event_builder_last_call_wins() {
    let event: RetryEvent<u8, &str> = RetryEventBuilder::new()
        .attempt_count(1)
        .next_delay(ms(3))
        .attempt_count(4)
        .last_result(Some(9))
        .last_result(None)
        .build();
    assert_eq!(event.attempt_count(), 4);
    assert_eq!(event.next_delay(), ms(3));
    assert_eq!(event.last_result(), None);
    assert_eq!(event.max_attempts(), 0);
    assert_eq!(event.last_error(), None);
    assert_eq!(event.total_duration(), Duration::ZERO);
}
