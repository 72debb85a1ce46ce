//! Retry event types: context snapshots, decisions and event payloads.

mod abort_event;
mod abort_reason;
mod attempt_failure_decision;
mod attempt_timeout_source;
mod failure_event;
mod retry_abort_context;
mod retry_attempt_context;
mod retry_context;
mod retry_context_parts;
mod retry_decision;
mod retry_event;
mod retry_reason;
mod success_event;

pub use abort_event::{AbortEvent, AbortEventBuilder};
pub use abort_reason::AbortReason;
pub use attempt_failure_decision::AttemptFailureDecision;
pub use attempt_timeout_source::AttemptTimeoutSource;
pub use failure_event::{FailureEvent, FailureEventBuilder};
pub use retry_abort_context::RetryAbortContext;
pub use retry_attempt_context::RetryAttemptContext;
pub use retry_context::{RetryContext, RetryContextView};
pub use retry_context_parts::RetryContextParts;
pub use retry_decision::RetryDecision;
pub use retry_event::{
    apply_retry_event_setter, apply_retry_event_setters, attempt_count_argument, last_call_argument,
    last_error_argument, last_result_argument, law_retry_event_builder_last_call_wins, max_attempts_argument,
    next_delay_argument, total_duration_argument, RetryEvent, RetryEventBuilder, RetryEventSetter,
    RetryEventView,
};
pub use retry_reason::RetryReason;
pub use success_event::{SuccessEvent, SuccessEventBuilder};
