//! Type-preserving retry policy for synchronous and asynchronous operations.
//!
//! The library separates the retry *decisions* from the *effects* of running
//! an operation. Which timeout an attempt gets, whether a failed attempt is
//! retried, which of the candidate delays precedes the next attempt, and which
//! terminal error ends the flow are verified functions of plain values. The
//! driver that calls user code and listeners, sleeps, reads the clock and
//! computes floating-point backoff and jitter delays feeds those functions.

pub mod constants;
pub mod decimal;
pub mod duration;
pub mod duration_text;
pub mod error;
pub mod event;
pub mod events;
pub mod executor;
pub mod failure;
pub mod laws;
pub mod options;
pub mod text;

pub use error::{
    AttemptExecutorError, AttemptFailure, AttemptPanic, RetryConfigError, RetryError,
    RetryErrorReason,
};
pub use event::{
    AttemptFailureDecision, AttemptTimeoutSource, RetryAbortContext, RetryAttemptContext,
    RetryContext, RetryDecision,
};

pub use options::{AttemptTimeoutOption, AttemptTimeoutPolicy, RetryLimits};
