use std::str::FromStr;
use std::time::Duration;

use qubit_retry::constants::{
    DEFAULT_RETRY_MAX_ATTEMPTS, DEFAULT_RETRY_WORKER_CANCEL_GRACE_MILLIS, KEY_ATTEMPT_TIMEOUT_MILLIS,
    KEY_ATTEMPT_TIMEOUT_POLICY, KEY_DELAY, KEY_MAX_ATTEMPTS,
};
use qubit_retry::options::{
    implicit_delay_strategy, parse_attempt_timeout_policy, parse_delay_strategy_name, random_delay,
    resolve_attempt_timeout, resolve_elapsed_budget, validate_exponential_range, validate_fixed_delay,
    validate_random_range, DelayStrategyName, RetryLimitsBuilder,
};
use qubit_retry::{AttemptTimeoutOption, AttemptTimeoutPolicy, RetryLimits};

fn ms(n: u64) -> Duration {
    Duration::from_millis(n)
}

#[test]
fn test_attempt_timeout_policy_parses_trimmed_case_insensitive_text() {
    assert_eq!(AttemptTimeoutPolicy::parse("retry"), Ok(AttemptTimeoutPolicy::Retry));
    assert_eq!(AttemptTimeoutPolicy::parse("  ABORT\t"), Ok(AttemptTimeoutPolicy::Abort));
    assert_eq!(AttemptTimeoutPolicy::from_str(" Retry "), Ok(AttemptTimeoutPolicy::Retry));
    assert_eq!(
        AttemptTimeoutPolicy::parse("later"),
        Err("attempt timeout policy must be `retry` or `abort`".to_string())
    );
    assert!(AttemptTimeoutPolicy::parse("re try").is_err());
    assert_eq!(AttemptTimeoutPolicy::default(), AttemptTimeoutPolicy::Retry);
}

#[test]
fn test_attempt_timeout_policy_text_round_trips() {
    for policy in [AttemptTimeoutPolicy::Retry, AttemptTimeoutPolicy::Abort] {
        assert_eq!(AttemptTimeoutPolicy::parse(policy.as_str()), Ok(policy));
    }
    assert_eq!(AttemptTimeoutPolicy::Retry.as_str(), "retry");
    assert_eq!(AttemptTimeoutPolicy::Abort.as_str(), "abort");
}

#[test]
fn test_attempt_timeout_option_constructors_and_validation() {
    let option = AttemptTimeoutOption::retry(ms(30));
    assert_eq!(option.timeout(), ms(30));
    assert_eq!(option.policy(), AttemptTimeoutPolicy::Retry);
    let aborting = AttemptTimeoutOption::abort(ms(40));
    assert_eq!(aborting.policy(), AttemptTimeoutPolicy::Abort);
    let changed = option.with_policy(AttemptTimeoutPolicy::Abort);
    assert_eq!(changed.timeout(), ms(30));
    assert_eq!(changed.policy(), AttemptTimeoutPolicy::Abort);
    assert_eq!(AttemptTimeoutOption::new(ms(1), AttemptTimeoutPolicy::Retry), AttemptTimeoutOption::retry(ms(1)));
    assert!(option.validate().is_ok());
    assert_eq!(
        AttemptTimeoutOption::retry(Duration::ZERO).validate(),
        Err("attempt timeout must be greater than zero".to_string())
    );
}

#[test]
fn test_retry_limits_validation_errors_name_their_keys() {
    let error = RetryLimits::new(0, None, None, None).expect_err("zero attempts are invalid");
    assert_eq!(error.key(), KEY_MAX_ATTEMPTS);
    let error = RetryLimits::new(0, None, None, Some(AttemptTimeoutOption::retry(Duration::ZERO)))
        .expect_err("zero attempts are reported first");
    assert_eq!(error.key(), KEY_MAX_ATTEMPTS);
    let error = RetryLimits::new(3, None, None, Some(AttemptTimeoutOption::retry(Duration::ZERO)))
        .expect_err("a zero attempt timeout is invalid");
    assert_eq!(error.key(), KEY_ATTEMPT_TIMEOUT_MILLIS);

    let limits = RetryLimits::new(3, Some(ms(5)), Some(ms(6)), Some(AttemptTimeoutOption::abort(ms(7))))
        .expect("valid limits");
    assert_eq!(limits.max_attempts(), 3);
    assert_eq!(limits.max_operation_elapsed(), Some(ms(5)));
    assert_eq!(limits.max_total_elapsed(), Some(ms(6)));
    assert_eq!(limits.attempt_timeout(), Some(AttemptTimeoutOption::abort(ms(7))));
    assert_eq!(limits.worker_cancel_grace(), ms(DEFAULT_RETRY_WORKER_CANCEL_GRACE_MILLIS));
    assert!(limits.validate().is_ok());
}

#[test]
fn test_retry_limits_default_and_setters() {
    let mut limits = RetryLimits::default();
    assert_eq!(limits.max_attempts(), DEFAULT_RETRY_MAX_ATTEMPTS);
    assert_eq!(limits.max_operation_elapsed(), None);
    assert_eq!(limits.max_total_elapsed(), None);
    assert_eq!(limits.attempt_timeout(), None);
    limits.set_max_attempts(9);
    limits.set_max_operation_elapsed(Some(ms(1)));
    limits.set_max_total_elapsed(Some(ms(2)));
    limits.set_attempt_timeout(Some(AttemptTimeoutOption::retry(ms(3))));
    limits.set_worker_cancel_grace(ms(4));
    assert_eq!(limits.max_attempts(), 9);
    assert_eq!(limits.max_operation_elapsed(), Some(ms(1)));
    assert_eq!(limits.max_total_elapsed(), Some(ms(2)));
    assert_eq!(limits.attempt_timeout_duration(), Some(ms(3)));
    assert_eq!(limits.worker_cancel_grace(), ms(4));
}

#[test]
fn test_retry_limits_budgets() {
    let limits = RetryLimits::new(3, Some(ms(10)), Some(ms(20)), None).expect("valid limits");
    assert_eq!(limits.remaining_operation_elapsed(ms(4)), Some(ms(6)));
    assert_eq!(limits.remaining_operation_elapsed(ms(40)), Some(Duration::ZERO));
    assert_eq!(limits.remaining_total_elapsed(ms(5)), Some(ms(15)));
    assert!(!limits.operation_budget_exhausted(ms(9)));
    assert!(limits.operation_budget_exhausted(ms(10)));
    assert!(limits.total_budget_exhausted(ms(20)));
    let unlimited = RetryLimits::default();
    assert_eq!(unlimited.remaining_operation_elapsed(ms(4)), None);
    assert!(!unlimited.total_budget_exhausted(Duration::MAX));
}

#[test]
fn test_limits_builder_collects_and_validates() {
    let limits = RetryLimitsBuilder::new()
        .max_retries(2)
        .max_operation_elapsed(Some(ms(100)))
        .max_total_elapsed(Some(ms(200)))
        .worker_cancel_grace(ms(7))
        .abort_on_timeout()
        .attempt_timeout(Some(ms(30)))
        .build()
        .expect("valid limits");
    assert_eq!(limits.max_attempts(), 3);
    assert_eq!(limits.max_operation_elapsed(), Some(ms(100)));
    assert_eq!(limits.max_total_elapsed(), Some(ms(200)));
    assert_eq!(limits.worker_cancel_grace(), ms(7));
    assert_eq!(limits.attempt_timeout(), Some(AttemptTimeoutOption::abort(ms(30))));

    let retried = RetryLimitsBuilder::new().attempt_timeout(Some(ms(30))).retry_on_timeout().build().expect("valid");
    assert_eq!(retried.attempt_timeout(), Some(AttemptTimeoutOption::retry(ms(30))));
    assert_eq!(RetryLimitsBuilder::new().max_retries(u32::MAX).build().expect("valid").max_attempts(), u32::MAX);
}

#[test]
fn test_limits_builder_reports_zero_attempts_until_replaced() {
    let builder = RetryLimitsBuilder::new().max_attempts(0);
    assert_eq!(builder.max_attempts_error().map(|e| e.key()), Some(KEY_MAX_ATTEMPTS));
    let error = builder.build().expect_err("zero attempts are invalid");
    assert_eq!(error.key(), KEY_MAX_ATTEMPTS);
    assert_eq!(error.message(), "max_attempts must be greater than zero");

    let limits = RetryLimitsBuilder::new().max_attempts(0).max_attempts(4).build().expect("replaced");
    assert_eq!(limits.max_attempts(), 4);
    let error = RetryLimitsBuilder::new().attempt_timeout(Some(Duration::ZERO)).build().expect_err("zero timeout");
    assert_eq!(error.key(), KEY_ATTEMPT_TIMEOUT_MILLIS);
}

#[test]
fn test_limits_builder_clearing_timeout_resets_policy() {
    let limits = RetryLimitsBuilder::new()
        .attempt_timeout_option(Some(AttemptTimeoutOption::abort(ms(5))))
        .attempt_timeout(None)
        .attempt_timeout(Some(ms(6)))
        .build()
        .expect("valid");
    assert_eq!(limits.attempt_timeout(), Some(AttemptTimeoutOption::retry(ms(6))));
    let options = RetryLimits::new(2, None, None, Some(AttemptTimeoutOption::abort(ms(8)))).expect("valid");
    let limits = RetryLimitsBuilder::new().options(options).attempt_timeout(Some(ms(9))).build().expect("valid");
    assert_eq!(limits.attempt_timeout(), Some(AttemptTimeoutOption::abort(ms(9))));
    assert_eq!(limits.max_attempts(), 2);
}

#[test]
fn test_resolve_elapsed_budget() {
    assert_eq!(resolve_elapsed_budget(Some(true), Some(5), Some(ms(9))), None);
    assert_eq!(resolve_elapsed_budget(Some(false), Some(5), Some(ms(9))), Some(ms(5)));
    assert_eq!(resolve_elapsed_budget(None, Some(0), None), Some(Duration::ZERO));
    assert_eq!(resolve_elapsed_budget(None, None, Some(ms(9))), Some(ms(9)));
    assert_eq!(resolve_elapsed_budget(Some(false), None, None), None);
}

#[test]
fn test_parse_attempt_timeout_policy_reports_config_key() {
    assert_eq!(parse_attempt_timeout_policy(" abort "), Ok(AttemptTimeoutPolicy::Abort));
    let error = parse_attempt_timeout_policy("never").expect_err("unsupported policy");
    assert_eq!(error.key(), KEY_ATTEMPT_TIMEOUT_POLICY);
    assert_eq!(error.message(), "attempt timeout policy must be `retry` or `abort`");
}

#[test]
fn test_resolve_attempt_timeout() {
    let default = Some(AttemptTimeoutOption::abort(ms(50)));
    assert_eq!(resolve_attempt_timeout(Some(10), None, default), Ok(Some(AttemptTimeoutOption::abort(ms(10)))));
    assert_eq!(resolve_attempt_timeout(Some(10), None, None), Ok(Some(AttemptTimeoutOption::retry(ms(10)))));
    assert_eq!(
        resolve_attempt_timeout(Some(10), Some("retry"), default),
        Ok(Some(AttemptTimeoutOption::retry(ms(10))))
    );
    assert_eq!(
        resolve_attempt_timeout(None, Some("RETRY"), default),
        Ok(Some(AttemptTimeoutOption::retry(ms(50))))
    );
    assert_eq!(resolve_attempt_timeout(None, None, default), Ok(default));
    assert_eq!(resolve_attempt_timeout(None, None, None), Ok(None));
    let error = resolve_attempt_timeout(None, Some("abort"), None).expect_err("no timeout to apply the policy to");
    assert_eq!(error.key(), KEY_ATTEMPT_TIMEOUT_POLICY);
    let error = resolve_attempt_timeout(Some(10), Some("sometimes"), default).expect_err("bad policy");
    assert_eq!(error.key(), KEY_ATTEMPT_TIMEOUT_POLICY);
}

#[test]
fn test_parse_delay_strategy_name() {
    assert_eq!(parse_delay_strategy_name(None, None), Ok(None));
    assert_eq!(parse_delay_strategy_name(Some(" NONE "), None), Ok(Some(DelayStrategyName::NoDelay)));
    assert_eq!(parse_delay_strategy_name(Some("Fixed"), Some("random")), Ok(Some(DelayStrategyName::Fixed)));
    assert_eq!(parse_delay_strategy_name(None, Some("random")), Ok(Some(DelayStrategyName::Random)));
    assert_eq!(parse_delay_strategy_name(Some("exponential"), None), Ok(Some(DelayStrategyName::Exponential)));
    assert_eq!(
        parse_delay_strategy_name(None, Some("Exponential_Backoff")),
        Ok(Some(DelayStrategyName::Exponential))
    );
    let error = parse_delay_strategy_name(Some("  Linear "), Some("fixed")).expect_err("unsupported");
    assert_eq!(error.key(), KEY_DELAY);
    assert_eq!(error.message(), "unsupported delay strategy 'linear'");
}

#[test]
fn test_implicit_delay_strategy_priority() {
    assert_eq!(implicit_delay_strategy(Some(1), Some(2), None, Some(3), None, true), Some(DelayStrategyName::Fixed));
    assert_eq!(implicit_delay_strategy(None, None, Some(2), Some(3), None, true), Some(DelayStrategyName::Random));
    assert_eq!(implicit_delay_strategy(None, None, None, None, None, true), Some(DelayStrategyName::Exponential));
    assert_eq!(implicit_delay_strategy(None, None, None, None, Some(4), false), Some(DelayStrategyName::Exponential));
    assert_eq!(implicit_delay_strategy(None, None, None, None, None, false), None);
}

#[test]
fn test_delay_bounds_validation() {
    assert!(validate_fixed_delay(ms(1)).is_ok());
    assert_eq!(validate_fixed_delay(Duration::ZERO), Err("fixed delay cannot be zero".to_string()));
    assert!(validate_random_range(ms(1), ms(1)).is_ok());
    assert_eq!(
        validate_random_range(Duration::ZERO, ms(1)),
        Err("random delay minimum cannot be zero".to_string())
    );
    assert_eq!(
        validate_random_range(ms(2), ms(1)),
        Err("random delay minimum cannot be greater than maximum".to_string())
    );
    assert!(validate_exponential_range(ms(1), ms(10)).is_ok());
    assert_eq!(
        validate_exponential_range(Duration::ZERO, ms(10)),
        Err("exponential delay initial value cannot be zero".to_string())
    );
    assert_eq!(
        validate_exponential_range(ms(10), ms(1)),
        Err("exponential delay maximum cannot be smaller than initial".to_string())
    );
}

#[test]
fn test_random_delay_stays_in_range() {
    assert_eq!(random_delay(ms(5), ms(5)), ms(5));
    assert_eq!(random_delay(ms(9), ms(5)), ms(9));
    for _ in 0..200 {
        let delay = random_delay(ms(10), ms(20));
        assert!(ms(10) <= delay && delay <= ms(20), "{delay:?} out of range");
    }
    let mut seen_other_than_min = false;
    for _ in 0..200 {
        if random_delay(Duration::from_nanos(0), Duration::from_nanos(1_000_000)) != Duration::ZERO {
            seen_other_than_min = true;
        }
    }
    assert!(seen_other_than_min);
}

#[test]
fn test_retry_limits_report_errors_in_order_with_strategy_check() {
    let strategy_error = qubit_retry::RetryConfigError::invalid_value("delay", "fixed delay cannot be zero");
    let error = RetryLimits::new_with_strategy_check(0, None, None, None, Err(strategy_error.clone()))
        .expect_err("zero attempts come first");
    assert_eq!(error.key(), KEY_MAX_ATTEMPTS);
    let error = RetryLimits::new_with_strategy_check(
        2,
        None,
        None,
        Some(AttemptTimeoutOption::retry(Duration::ZERO)),
        Err(strategy_error.clone()),
    )
    .expect_err("the strategy error comes before the timeout error");
    assert_eq!(error, strategy_error);
    let error = RetryLimits::new_with_strategy_check(2, None, None, Some(AttemptTimeoutOption::retry(Duration::ZERO)), Ok(()))
        .expect_err("zero timeout");
    assert_eq!(error.key(), KEY_ATTEMPT_TIMEOUT_MILLIS);
    let limits = RetryLimits::new_with_strategy_check(2, Some(ms(1)), None, None, Ok(())).expect("valid");
    assert_eq!(limits.max_attempts(), 2);
    assert_eq!(limits.max_operation_elapsed(), Some(ms(1)));

    assert_eq!(limits.validate_with_strategy_check(Err(strategy_error.clone())), Err(strategy_error.clone()));
    assert_eq!(limits.validate_with_strategy_check(Ok(())), Ok(()));

    let error = RetryLimitsBuilder::new()
        .max_attempts(0)
        .build_with_strategy_check(Err(strategy_error.clone()))
        .expect_err("attempt count error first");
    assert_eq!(error.key(), KEY_MAX_ATTEMPTS);
    let error = RetryLimitsBuilder::new()
        .attempt_timeout(Some(Duration::ZERO))
        .build_with_strategy_check(Err(strategy_error.clone()))
        .expect_err("strategy error before timeout");
    assert_eq!(error, strategy_error);
    let limits = RetryLimitsBuilder::new().max_attempts(7).build_with_strategy_check(Ok(())).expect("valid");
    assert_eq!(limits.max_attempts(), 7);
}

#[test]
fn test_retry_limits_error_messages() {
    let error = RetryLimits::new(0, None, None, None).expect_err("zero attempts");
    assert_eq!(error.message(), "max_attempts must be greater than zero");
    let error = RetryLimits::new(1, None, None, Some(AttemptTimeoutOption::abort(Duration::ZERO))).expect_err("zero timeout");
    assert_eq!(error.message(), "attempt timeout must be greater than zero");
    let error = RetryLimitsBuilder::new().attempt_timeout(Some(Duration::ZERO)).build().expect_err("zero timeout");
    assert_eq!(error.message(), "attempt timeout must be greater than zero");
}

#[test]
fn test_timeout_policy_shortcuts_keep_other_limits() {
    let limits = RetryLimitsBuilder::new()
        .max_attempts(4)
        .max_total_elapsed(Some(ms(9)))
        .abort_on_timeout()
        .build()
        .expect("valid");
    assert_eq!(limits.max_attempts(), 4);
    assert_eq!(limits.max_total_elapsed(), Some(ms(9)));
    assert_eq!(limits.attempt_timeout(), None);
    let limits = RetryLimitsBuilder::new().attempt_timeout(Some(ms(3))).abort_on_timeout().retry_on_timeout().build().expect("valid");
    assert_eq!(limits.attempt_timeout(), Some(AttemptTimeoutOption::retry(ms(3))));
}
