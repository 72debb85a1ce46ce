//! Plain context payloads for success, retry and failure notifications.

mod failure_context;
mod retry_context;
mod success_context;

pub use failure_context::FailureContext;
pub use retry_context::RetryContext;
pub use success_context::SuccessContext;
