use std::time::Duration;

use qubit_retry::decimal::append_decimal;
use qubit_retry::duration_text::{format_duration_text, parse_duration_text};
use qubit_retry::executor::error_predicate_decision;
use qubit_retry::failure::RetryError as LegacyRetryError;
use qubit_retry::{
    AttemptExecutorError, AttemptFailure, AttemptFailureDecision, AttemptPanic, RetryContext, RetryError,
    RetryErrorReason,
};

#[test]
fn test_append_decimal_renders_digits() {
    let mut text = "n=".to_string();
    append_decimal(&mut text, 0);
    assert_eq!(text, "n=0");
    let mut text = String::new();
    append_decimal(&mut text, 1_234_567_890);
    assert_eq!(text, "1234567890");
    let mut text = String::new();
    append_decimal(&mut text, u128::MAX);
    assert_eq!(text, u128::MAX.to_string());
}

#[test]
fn test_parse_duration_text_units() {
    assert_eq!(parse_duration_text("1000ms"), Some(Duration::from_millis(1000)));
    assert_eq!(parse_duration_text("  15s "), Some(Duration::from_secs(15)));
    assert_eq!(parse_duration_text("7ns"), Some(Duration::from_nanos(7)));
    assert_eq!(parse_duration_text("3us"), Some(Duration::from_micros(3)));
    assert_eq!(parse_duration_text("2m"), Some(Duration::from_secs(120)));
    assert_eq!(parse_duration_text("1h"), Some(Duration::from_secs(3600)));
    assert_eq!(parse_duration_text("0ms"), Some(Duration::ZERO));
    assert_eq!(parse_duration_text("250"), Some(Duration::from_millis(250)));
    assert_eq!(parse_duration_text("ms"), None);
    assert_eq!(parse_duration_text(""), None);
    assert_eq!(parse_duration_text("10 ms"), None);
    assert_eq!(parse_duration_text("10sec"), None);
    assert_eq!(parse_duration_text("-5ms"), None);
    assert_eq!(parse_duration_text("18446744073709551616ns"), Some(Duration::new(18_446_744_073, 709_551_616)));
    assert_eq!(parse_duration_text("18446744073709551615s"), Some(Duration::from_secs(u64::MAX)));
    assert_eq!(parse_duration_text("18446744073709551616s"), None);
    assert_eq!(parse_duration_text("999999999999999999999999999999999999999999h"), None);
}

#[test]
fn test_format_duration_text_round_trips() {
    assert_eq!(format_duration_text(&Duration::from_millis(1000)), "1000ms");
    assert_eq!(format_duration_text(&Duration::ZERO), "0ms");
    assert_eq!(format_duration_text(&Duration::from_nanos(1_500_000)), "1ms");
    assert_eq!(format_duration_text(&Duration::MAX), format!("{}ms", u64::MAX));
    for d in [Duration::from_millis(60_000), Duration::from_secs(7), Duration::from_millis(u64::MAX)] {
        assert_eq!(parse_duration_text(&format_duration_text(&d)), Some(d));
    }
    assert_eq!(
        parse_duration_text(&format_duration_text(&Duration::from_nanos(123_456_789))),
        Some(Duration::from_millis(123))
    );
}

#[test]
fn test_retry_error_summary_text() {
    let aborted: RetryError<&str> = RetryError::new(RetryErrorReason::Aborted, None, RetryContext::new(2, 5));
    assert_eq!(aborted.summary(), "retry aborted after 2 attempt(s)");
    let exceeded: RetryError<&str> =
        RetryError::new(RetryErrorReason::AttemptsExceeded, Some(AttemptFailure::Error("e")), RetryContext::new(3, 3));
    assert_eq!(exceeded.summary(), "retry attempts exceeded after 3 attempt(s), max 3");
    let total: RetryError<&str> =
        RetryError::new(RetryErrorReason::MaxTotalElapsedExceeded, None, RetryContext::new(10, 12));
    assert_eq!(total.summary(), "retry max total elapsed exceeded after 10 attempt(s)");
}

#[test]
fn test_attempt_failure_runtime_text() {
    assert_eq!(AttemptFailure::<&str>::Timeout.runtime_text(), Some("attempt timed out".to_string()));
    assert_eq!(
        AttemptFailure::<&str>::Panic(AttemptPanic::new("boom")).runtime_text(),
        Some("attempt panicked: boom".to_string())
    );
    assert_eq!(
        AttemptFailure::<&str>::Executor(AttemptExecutorError::new("no thread")).runtime_text(),
        Some("attempt executor failed: no thread".to_string())
    );
    assert_eq!(AttemptFailure::Error("app").runtime_text(), None);
}

#[test]
fn test_legacy_retry_error_describe() {
    let error: LegacyRetryError = LegacyRetryError::max_attempts_exceeded(4, 3);
    assert_eq!(error.describe(), Some("Maximum attempts exceeded: 4 (max: 3)".to_string()));
    let error: LegacyRetryError = LegacyRetryError::max_duration_exceeded(Duration::from_millis(1500), Duration::from_secs(1));
    assert_eq!(error.describe(), Some("Maximum duration exceeded: 1.5s (max: 1s)".to_string()));
    let error: LegacyRetryError = LegacyRetryError::operation_timeout(Duration::from_millis(250), Duration::from_millis(200));
    assert_eq!(
        error.describe(),
        Some("Operation timeout: execution time 250ms exceeded configured timeout 200ms".to_string())
    );
    let error: LegacyRetryError = LegacyRetryError::aborted("stop");
    assert_eq!(error.describe(), Some("Operation aborted: stop".to_string()));
    let error: LegacyRetryError = LegacyRetryError::config_error("bad");
    assert_eq!(error.describe(), Some("Configuration error: bad".to_string()));
    let error: LegacyRetryError = LegacyRetryError::delay_strategy_error("neg");
    assert_eq!(error.describe(), Some("Delay strategy error: neg".to_string()));
    let error: LegacyRetryError = LegacyRetryError::other("misc");
    assert_eq!(error.describe(), Some("Other error: misc".to_string()));
    let error: LegacyRetryError<&str> = LegacyRetryError::execution_error("io");
    assert_eq!(error.describe(), None);
}

#[test]
fn test_attempt_panic_from_payload_text() {
    assert_eq!(AttemptPanic::from_payload_text(Some("owned".to_string())).message(), "owned");
    assert_eq!(
        AttemptPanic::from_payload_text(None).message(),
        "attempt panicked with a non-string payload"
    );
}

#[test]
fn test_error_predicate_decision() {
    assert_eq!(error_predicate_decision(&AttemptFailure::Error(1u8), true), AttemptFailureDecision::Retry);
    assert_eq!(error_predicate_decision(&AttemptFailure::Error(1u8), false), AttemptFailureDecision::Abort);
    assert_eq!(error_predicate_decision::<u8>(&AttemptFailure::Timeout, false), AttemptFailureDecision::UseDefault);
    assert_eq!(
        error_predicate_decision::<u8>(&AttemptFailure::Panic(AttemptPanic::new("p")), true),
        AttemptFailureDecision::UseDefault
    );
}

#[test]
fn test_legacy_retry_error_display_text() {
    let error: LegacyRetryError<&str> = LegacyRetryError::execution_error("io");
    assert_eq!(error.display_text("File not found"), "Execution error: File not found");
    let error: LegacyRetryError<&str> = LegacyRetryError::execution_error_box("boxed");
    assert_eq!(error.display_text("File not found"), "Execution error: File not found");
    let error: LegacyRetryError<&str> = LegacyRetryError::aborted("stop");
    assert_eq!(error.display_text("ignored"), "Operation aborted: stop");
}
