//! Error types used by retry executors.

mod attempt_executor_error;
mod attempt_failure;
mod attempt_panic;
mod retry_config_error;
mod retry_error;
mod retry_error_reason;

pub use attempt_executor_error::AttemptExecutorError;
pub use attempt_failure::AttemptFailure;
pub use attempt_panic::AttemptPanic;
pub use retry_config_error::RetryConfigError;
pub use retry_error::RetryError;
pub use retry_error_reason::RetryErrorReason;
