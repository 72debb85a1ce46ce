//! Reason why an operation should be aborted.

use vstd::prelude::*;

verus! {

/// Reason why an operation should be aborted instead of retried.
///
/// - `Error`: an unrecoverable error (for example permission denied).
/// - `Result`: a returned result that says retrying should not continue.
///
/// `T` is the operation's value type; `X` is the error payload, by default a
/// boxed error.
#[derive(Debug)]
pub enum AbortReason<T, X = Box<dyn std::error::Error + Send + Sync>> {
    /// Abort due to an error.
    Error(X),
    /// Abort due to a result.
    Result(T),
}

} // verus!
