//! Configuration keys and built-in defaults for retry options.
//!
//! The `KEY_*` strings are the relative configuration keys under which each
//! retry option value is read. The `DEFAULT_*` values are the library's
//! built-in defaults; composed defaults are derived from them.
//!
//! The floating-point defaults (exponential multiplier and jitter factor) are
//! defined by the driver crate next to the floating-point strategies.

use std::time::Duration;
use vstd::prelude::*;

verus! {

// ------------------------------------------------------------------------- keys

/// Config key for the maximum attempts option value (including the initial attempt).
pub const KEY_MAX_ATTEMPTS: &'static str = "max_attempts";

/// Config key for the cumulative user operation elapsed budget, in milliseconds.
/// A stored value of `0` means a zero-millisecond operation elapsed budget.
pub const KEY_MAX_OPERATION_ELAPSED_MILLIS: &'static str = "max_operation_elapsed_millis";

/// Config key for explicitly forcing an unlimited user operation elapsed budget.
/// When `true`, merge logic ignores [`KEY_MAX_OPERATION_ELAPSED_MILLIS`].
pub const KEY_MAX_OPERATION_ELAPSED_UNLIMITED: &'static str = "max_operation_elapsed_unlimited";

/// Config key for the total retry-flow elapsed budget, in milliseconds.
pub const KEY_MAX_TOTAL_ELAPSED_MILLIS: &'static str = "max_total_elapsed_millis";

/// Config key for explicitly forcing an unlimited total retry-flow elapsed budget.
pub const KEY_MAX_TOTAL_ELAPSED_UNLIMITED: &'static str = "max_total_elapsed_unlimited";

/// Config key for the per-attempt timeout value, in milliseconds.
pub const KEY_ATTEMPT_TIMEOUT_MILLIS: &'static str = "attempt_timeout_millis";

/// Config key for the action selected when one attempt times out.
pub const KEY_ATTEMPT_TIMEOUT_POLICY: &'static str = "attempt_timeout_policy";

/// Config key for how long the executor waits for a timed-out worker to exit
/// after requesting cooperative cancellation.
pub const KEY_WORKER_CANCEL_GRACE_MILLIS: &'static str = "worker_cancel_grace_millis";

/// Config key for the delay strategy name (`none`, `fixed`, `random`,
/// `exponential` or `exponential_backoff`).
pub const KEY_DELAY: &'static str = "delay";

/// Config key: alias for the delay strategy name (same meaning as [`KEY_DELAY`]).
pub const KEY_DELAY_STRATEGY: &'static str = "delay_strategy";

/// Config key for the fixed delay, in milliseconds.
pub const KEY_FIXED_DELAY_MILLIS: &'static str = "fixed_delay_millis";

/// Config key for the random delay minimum, in milliseconds.
pub const KEY_RANDOM_MIN_DELAY_MILLIS: &'static str = "random_min_delay_millis";

/// Config key for the random delay maximum, in milliseconds.
pub const KEY_RANDOM_MAX_DELAY_MILLIS: &'static str = "random_max_delay_millis";

/// Config key for the exponential backoff initial delay, in milliseconds.
pub const KEY_EXPONENTIAL_INITIAL_DELAY_MILLIS: &'static str = "exponential_initial_delay_millis";

/// Config key for the exponential backoff maximum delay, in milliseconds.
pub const KEY_EXPONENTIAL_MAX_DELAY_MILLIS: &'static str = "exponential_max_delay_millis";

/// Config key for the exponential backoff multiplier.
pub const KEY_EXPONENTIAL_MULTIPLIER: &'static str = "exponential_multiplier";

/// Config key for the numeric jitter factor.
pub const KEY_JITTER_FACTOR: &'static str = "jitter_factor";

// --------------------------------------------------------------------- defaults

/// Default maximum attempts (including the initial attempt).
pub const DEFAULT_RETRY_MAX_ATTEMPTS: u32 = 5;

/// Default cumulative user operation elapsed budget: unlimited (`None`).
pub const DEFAULT_RETRY_MAX_OPERATION_ELAPSED: Option<Duration> = None;

/// Default total retry-flow elapsed budget: unlimited (`None`).
pub const DEFAULT_RETRY_MAX_TOTAL_ELAPSED: Option<Duration> = None;

/// Default fixed delay, in milliseconds.
pub const DEFAULT_RETRY_FIXED_DELAY_MILLIS: u64 = 1000;

/// Default random delay minimum, in milliseconds.
pub const DEFAULT_RETRY_RANDOM_MIN_DELAY_MILLIS: u64 = 1000;

/// Default random delay maximum, in milliseconds.
pub const DEFAULT_RETRY_RANDOM_MAX_DELAY_MILLIS: u64 = 10000;

/// Default exponential backoff initial delay, in milliseconds.
pub const DEFAULT_RETRY_EXPONENTIAL_INITIAL_DELAY_MILLIS: u64 = 1000;

/// Default exponential backoff maximum delay, in milliseconds.
pub const DEFAULT_RETRY_EXPONENTIAL_MAX_DELAY_MILLIS: u64 = 60000;

/// Default worker cancellation grace period, in milliseconds.
pub const DEFAULT_RETRY_WORKER_CANCEL_GRACE_MILLIS: u64 = 100;

/// Default delay text, in the grammar shared by the delay strategy's textual
/// form: `none`, `fixed(<millis>ms)`, `random(<min>ms..=<max>ms)` or
/// `exponential(initial=<millis>ms, max=<millis>ms, multiplier=<f64>)`.
pub const DEFAULT_RETRY_DELAY: &'static str = "exponential(initial=1000ms, max=60000ms, multiplier=2.0)";

/// Default jitter text: `none` (any ASCII case) or `factor:<f64 in [0.0, 1.0]>`.
pub const DEFAULT_RETRY_JITTER: &'static str = "none";

} // verus!
