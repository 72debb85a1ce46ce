//! Messages from a blocking attempt worker and their conversion to attempt
//! results.

use vstd::prelude::*;

use crate::error::{AttemptExecutorError, AttemptFailure, AttemptPanic};

verus! {

/// Message sent from one blocking attempt worker to the retry executor.
pub enum BlockingAttemptMessage<T, E> {
    /// Operation returned normally.
    Result(Result<T, E>),
    /// Operation panicked before timeout.
    Panic(AttemptPanic),
}

/// What the executor observed while waiting for a worker with a timeout.
pub enum WorkerReceive<T, E> {
    /// The worker reported a message.
    Message(BlockingAttemptMessage<T, E>),
    /// The timeout elapsed first; the executor cancels the attempt's token.
    TimedOut,
    /// The worker's channel closed without a message.
    Disconnected,
}

/// Text of the executor failure reported for a worker whose result channel
/// closed without a message.
pub open spec fn worker_disconnected_text() -> Seq<char> {
    "attempt worker disconnected before reporting a result"@
}

/// Converts a worker message into an attempt result: the operation's value,
/// its error as [`AttemptFailure::Error`], or its panic as
/// [`AttemptFailure::Panic`].
pub fn worker_message_to_attempt_result<T, E>(message: BlockingAttemptMessage<T, E>) -> (r: Result<T, AttemptFailure<E>>)
    ensures
        match message {
            BlockingAttemptMessage::Result(Ok(v)) => r == Ok::<T, AttemptFailure<E>>(v),
            BlockingAttemptMessage::Result(Err(e)) => r == Err::<T, AttemptFailure<E>>(AttemptFailure::Error(e)),
            BlockingAttemptMessage::Panic(p) => r == Err::<T, AttemptFailure<E>>(AttemptFailure::Panic(p)),
        },
{
    match message {
        BlockingAttemptMessage::Result(Ok(value)) => Ok(value),
        BlockingAttemptMessage::Result(Err(error)) => Err(AttemptFailure::Error(error)),
        BlockingAttemptMessage::Panic(panic) => Err(AttemptFailure::Panic(panic)),
    }
}

/// Builds the executor failure for a disconnected worker result channel.
pub fn worker_disconnected_attempt_failure<E>() -> (r: AttemptFailure<E>)
    ensures
        r matches AttemptFailure::Executor(x) && x@ == worker_disconnected_text(),
{
    AttemptFailure::Executor(AttemptExecutorError::new("attempt worker disconnected before reporting a result"))
}

/// Converts a worker-spawn failure, given by its error text, into an executor
/// attempt failure whose message is `failed to spawn attempt worker: ` and
/// that text.
pub fn worker_spawn_error_to_attempt_failure<E>(error: &str) -> (r: AttemptFailure<E>)
    ensures
        r matches AttemptFailure::Executor(x) && x@ == "failed to spawn attempt worker: "@ + error@,
{
    let mut message = "failed to spawn attempt worker: ".to_owned();
    message.append(error);
    AttemptFailure::Executor(AttemptExecutorError::new(message.as_str()))
}

/// Converts the outcome of a timeout-bounded wait for a worker into an
/// attempt result. A timeout becomes [`AttemptFailure::Timeout`] (the caller
/// cancels the attempt's token); a closed channel becomes the disconnected
/// executor failure.
pub fn worker_timeout_message_to_attempt_result<T, E>(message: WorkerReceive<T, E>) -> (r: Result<T, AttemptFailure<E>>)
    ensures
        match message {
            WorkerReceive::Message(BlockingAttemptMessage::Result(Ok(v))) => r == Ok::<T, AttemptFailure<E>>(v),
            WorkerReceive::Message(BlockingAttemptMessage::Result(Err(e))) => r == Err::<T, AttemptFailure<E>>(AttemptFailure::Error(e)),
            WorkerReceive::Message(BlockingAttemptMessage::Panic(p)) => r == Err::<T, AttemptFailure<E>>(AttemptFailure::Panic(p)),
            WorkerReceive::TimedOut => r == Err::<T, AttemptFailure<E>>(AttemptFailure::Timeout),
            WorkerReceive::Disconnected => r matches Err(AttemptFailure::Executor(x)) && x@ == worker_disconnected_text(),
        },
{
    match message {
        WorkerReceive::Message(message) => worker_message_to_attempt_result(message),
        WorkerReceive::TimedOut => Err(AttemptFailure::Timeout),
        WorkerReceive::Disconnected => Err(worker_disconnected_attempt_failure()),
    }
}

/// Converts the outcome of an unbounded wait for a worker (`None` when the
/// channel closed without a message) into an attempt result.
pub fn worker_recv_message_to_attempt_result<T, E>(message: Option<BlockingAttemptMessage<T, E>>) -> (r: Result<T, AttemptFailure<E>>)
    ensures
        match message {
            Some(BlockingAttemptMessage::Result(Ok(v))) => r == Ok::<T, AttemptFailure<E>>(v),
            Some(BlockingAttemptMessage::Result(Err(e))) => r == Err::<T, AttemptFailure<E>>(AttemptFailure::Error(e)),
            Some(BlockingAttemptMessage::Panic(p)) => r == Err::<T, AttemptFailure<E>>(AttemptFailure::Panic(p)),
            None => r matches Err(AttemptFailure::Executor(x)) && x@ == worker_disconnected_text(),
        },
{
    match message {
        Some(message) => worker_message_to_attempt_result(message),
        None => Err(worker_disconnected_attempt_failure()),
    }
}

} // verus!
