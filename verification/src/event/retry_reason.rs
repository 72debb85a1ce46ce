//! Reason why an operation needs to be retried.

use vstd::prelude::*;

verus! {

/// Reason why an operation needs to be retried: an error (for example a
/// connection failure) or a result that does not meet expectations.
///
/// `T` is the operation's value type; `X` is the error payload, by default a
/// boxed error.
#[derive(Debug)]
pub enum RetryReason<T, X = Box<dyn std::error::Error + Send + Sync>> {
    /// Retry due to an error.
    Error(X),
    /// Retry due to a result.
    Result(T),
}

} // verus!
