//! Categorized retry errors.
//!
//! [`RetryError`] here names the condition that ended a retry operation with
//! a descriptive payload: exhausted attempts or duration, an operation
//! timeout, an abort, a configuration or delay-strategy problem, the
//! operation's own error, or another condition.

use std::time::Duration;
use vstd::prelude::*;

use crate::decimal::{append_decimal, decimal_spec};
use crate::duration::{debug_text, duration_debug_text};

verus! {

/// Error conditions of a retry operation.
///
/// `X` is the payload of [`RetryError::ExecutionError`], by default a boxed
/// error.
#[derive(Debug)]
pub enum RetryError<X = Box<dyn std::error::Error + Send + Sync>> {
    /// The number of attempts reached the maximum.
    MaxAttemptsExceeded {
        /// Actual number of attempts.
        attempts: u32,
        /// Maximum allowed attempts.
        max_attempts: u32,
    },
    /// The total duration exceeded the maximum.
    MaxDurationExceeded {
        /// Actual time consumed.
        duration: Duration,
        /// Maximum allowed duration.
        max_duration: Duration,
    },
    /// A single operation exceeded the configured operation timeout.
    OperationTimeout {
        /// Actual execution time.
        duration: Duration,
        /// Configured timeout.
        timeout: Duration,
    },
    /// The operation was aborted.
    Aborted {
        /// Description of the abort reason.
        reason: String,
    },
    /// Retry configuration parameters are invalid or conflicting.
    ConfigError {
        /// Error description.
        message: String,
    },
    /// The delay strategy is misconfigured or failed to compute a delay.
    DelayStrategyError {
        /// Error description.
        message: String,
    },
    /// The retried operation itself failed.
    ExecutionError {
        /// The operation's error.
        source: X,
    },
    /// Any other error.
    Other {
        /// Error description.
        message: String,
    },
}

/// Result of a retry operation: the value, or the [`RetryError`] that ended
/// it.
pub type RetryResult<T, X = Box<dyn std::error::Error + Send + Sync>> = Result<T, RetryError<X>>;

impl<X> RetryError<X> {
    /// Creates a maximum-attempts-exceeded error.
    pub fn max_attempts_exceeded(attempts: u32, max_attempts: u32) -> (r: Self)
        ensures
            r == (RetryError::<X>::MaxAttemptsExceeded { attempts, max_attempts }),
    {
        RetryError::MaxAttemptsExceeded { attempts, max_attempts }
    }

    /// Creates a maximum-duration-exceeded error.
    pub fn max_duration_exceeded(duration: Duration, max_duration: Duration) -> (r: Self)
        ensures
            r == (RetryError::<X>::MaxDurationExceeded { duration, max_duration }),
    {
        RetryError::MaxDurationExceeded { duration, max_duration }
    }

    /// Creates a single-operation timeout error.
    pub fn operation_timeout(duration: Duration, timeout: Duration) -> (r: Self)
        ensures
            r == (RetryError::<X>::OperationTimeout { duration, timeout }),
    {
        RetryError::OperationTimeout { duration, timeout }
    }

    /// Creates an abort error with the given reason.
    pub fn aborted(reason: &str) -> (r: Self)
        ensures
            r matches RetryError::Aborted { reason: s } && s@ == reason@,
    {
        RetryError::Aborted { reason: reason.to_owned() }
    }

    /// Creates a configuration error.
    pub fn config_error(message: &str) -> (r: Self)
        ensures
            r matches RetryError::ConfigError { message: s } && s@ == message@,
    {
        RetryError::ConfigError { message: message.to_owned() }
    }

    /// Creates a delay strategy error.
    pub fn delay_strategy_error(message: &str) -> (r: Self)
        ensures
            r matches RetryError::DelayStrategyError { message: s } && s@ == message@,
    {
        RetryError::DelayStrategyError { message: message.to_owned() }
    }

    /// Wraps the operation's error.
    pub fn execution_error(error: X) -> (r: Self)
        ensures
            r == (RetryError::<X>::ExecutionError { source: error }),
    {
        RetryError::ExecutionError { source: error }
    }

    /// Wraps an already boxed operation error.
    pub fn execution_error_box(error: X) -> (r: Self)
        ensures
            r == (RetryError::<X>::ExecutionError { source: error }),
    {
        RetryError::ExecutionError { source: error }
    }

    /// Creates an error for any other condition.
    pub fn other(message: &str) -> (r: Self)
        ensures
            r matches RetryError::Other { message: s } && s@ == message@,
    {
        RetryError::Other { message: message.to_owned() }
    }

    /// Returns the operation's error for [`RetryError::ExecutionError`].
    pub fn source(&self) -> (r: Option<&X>)
        ensures
            r is Some <==> self is ExecutionError,
            r matches Some(x) ==> *self == (RetryError::<X>::ExecutionError { source: *x }),
    {
        match self {
            RetryError::ExecutionError { source } => Some(source),
            _ => None,
        }
    }

    /// Display text of this error; `None` for [`RetryError::ExecutionError`],
    /// which is shown as `Execution error: ` followed by the `Display` text
    /// of its source.
    pub open spec fn describe_spec(&self) -> Option<Seq<char>> {
        match self {
            RetryError::MaxAttemptsExceeded { attempts, max_attempts } => Some(
                "Maximum attempts exceeded: "@ + decimal_spec(*attempts as nat) + " (max: "@ + decimal_spec(
                    *max_attempts as nat,
                ) + ")"@,
            ),
            RetryError::MaxDurationExceeded { duration, max_duration } => Some(
                "Maximum duration exceeded: "@ + duration_debug_text(*duration) + " (max: "@
                    + duration_debug_text(*max_duration) + ")"@,
            ),
            RetryError::OperationTimeout { duration, timeout } => Some(
                "Operation timeout: execution time "@ + duration_debug_text(*duration)
                    + " exceeded configured timeout "@ + duration_debug_text(*timeout),
            ),
            RetryError::Aborted { reason } => Some("Operation aborted: "@ + reason@),
            RetryError::ConfigError { message } => Some("Configuration error: "@ + message@),
            RetryError::DelayStrategyError { message } => Some("Delay strategy error: "@ + message@),
            RetryError::ExecutionError { .. } => None,
            RetryError::Other { message } => Some("Other error: "@ + message@),
        }
    }

    /// Returns the display text of this error, or `None` for an execution
    /// error, whose text needs the source error's own formatting.
    pub fn describe(&self) -> (r: Option<String>)
        ensures
            r is Some <==> self.describe_spec() is Some,
            r matches Some(t) ==> Some(t@) == self.describe_spec(),
    {
        match self {
            RetryError::MaxAttemptsExceeded { attempts, max_attempts } => {
                let mut text = "Maximum attempts exceeded: ".to_owned();
                append_decimal(&mut text, *attempts as u128);
                text.append(" (max: ");
                append_decimal(&mut text, *max_attempts as u128);
                text.append(")");
                Some(text)
            },
            RetryError::MaxDurationExceeded { duration, max_duration } => {
                let mut text = "Maximum duration exceeded: ".to_owned();
                text.append(debug_text(duration).as_str());
                text.append(" (max: ");
                text.append(debug_text(max_duration).as_str());
                text.append(")");
                Some(text)
            },
            RetryError::OperationTimeout { duration, timeout } => {
                let mut text = "Operation timeout: execution time ".to_owned();
                text.append(debug_text(duration).as_str());
                text.append(" exceeded configured timeout ");
                text.append(debug_text(timeout).as_str());
                Some(text)
            },
            RetryError::Aborted { reason } => {
                let mut text = "Operation aborted: ".to_owned();
                text.append(reason.as_str());
                Some(text)
            },
            RetryError::ConfigError { message } => {
                let mut text = "Configuration error: ".to_owned();
                text.append(message.as_str());
                Some(text)
            },
            RetryError::DelayStrategyError { message } => {
                let mut text = "Delay strategy error: ".to_owned();
                text.append(message.as_str());
                Some(text)
            },
            RetryError::ExecutionError { .. } => None,
            RetryError::Other { message } => {
                let mut text = "Other error: ".to_owned();
                text.append(message.as_str());
                Some(text)
            },
        }
    }

    /// Display text of this error, given the `Display` text of an
    /// [`RetryError::ExecutionError`] source: `Execution error: ` followed by
    /// that text for an execution error, the text of
    /// [`RetryError::describe`] for any other error (which ignores
    /// `source_text`).
    pub open spec fn display_spec(&self, source_text: Seq<char>) -> Seq<char> {
        match self.describe_spec() {
            Some(t) => t,
            None => "Execution error: "@ + source_text,
        }
    }

    /// Returns the display text of this error; `source_text` is the
    /// `Display` text of the source of an execution error.
    pub fn display_text(&self, source_text: &str) -> (r: String)
        ensures
            r@ == self.display_spec(source_text@),
    {
        match self.describe() {
            Some(text) => text,
            None => {
                let mut text = "Execution error: ".to_owned();
                text.append(source_text);
                text
            },
        }
    }
}

} // verus!
