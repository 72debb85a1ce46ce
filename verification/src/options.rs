//! Retry option values: attempt timeouts, limits and configuration merging.

mod attempt_timeout_option;
mod attempt_timeout_policy;
mod config_resolution;
mod delay_bounds;
mod limits_builder;
mod random_delay;
mod retry_limits;

pub use attempt_timeout_option::AttemptTimeoutOption;
pub use attempt_timeout_policy::{law_policy_text_round_trip, policy_from_text, AttemptTimeoutPolicy};
pub use config_resolution::{
    delay_strategy_from_text, implicit_delay_strategy, parse_attempt_timeout_policy,
    parse_delay_strategy_name, resolve_attempt_timeout, resolve_elapsed_budget, DelayStrategyName,
};
pub use retry_limits::{
    attempt_timeout_message, is_attempt_timeout_error, is_max_attempts_error, max_attempts_message, RetryLimits,
    RetryLimitsView,
};
pub use random_delay::{random_delay, random_delay_from_draw, saturated_nanos};
pub use delay_bounds::{validate_exponential_range, validate_fixed_delay, validate_random_range};
pub use limits_builder::{RetryLimitsBuilder, RetryLimitsBuilderView};
