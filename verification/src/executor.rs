//! Retry flow decisions and value-capturing operation adapters.
//!
//! [`RetryFlow`] is the state machine that a retry driver runs: it is told when
//! an attempt starts, succeeds or fails, and answers with the next action
//! (run another attempt after a delay, or stop with a terminal error).

mod async_value_operation;
mod blocking_attempt_message;
mod effective_attempt_timeout;
mod elapsed;
mod failure_policy;
mod retry_flow;
mod sync_value_operation;

pub use async_value_operation::AsyncValueOperation;
pub use blocking_attempt_message::{
    worker_disconnected_attempt_failure, worker_disconnected_text,
    worker_message_to_attempt_result, worker_recv_message_to_attempt_result,
    worker_spawn_error_to_attempt_failure, worker_timeout_message_to_attempt_result,
    BlockingAttemptMessage, WorkerReceive,
};
pub use effective_attempt_timeout::{effective_timeout_spec, EffectiveAttemptTimeout};
pub use elapsed::{add_elapsed, will_exceed_elapsed, will_exceed_elapsed_spec};
pub use failure_policy::{
    budget_exhausted, configured_timeout, context_spec, error_predicate_decision, failure_decision, failure_stop_reason, law_combined_decision_is_last_explicit,
    last_override, nanos_opt, remaining_spec, resolve_spec, retry_delay, retry_delay_spec,
    RetryFlowAction,
};
pub use retry_flow::{law_attempts_never_exceed_maximum, FlowPhase, RetryFlow, RetryStep, RunMode};
pub use sync_value_operation::SyncValueOperation;
