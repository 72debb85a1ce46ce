//! Attempt executor failure information.

use vstd::prelude::*;

verus! {

/// Failure produced by the retry executor before an attempt can run normally.
///
/// This type is used for infrastructure failures such as failing to spawn a
/// worker thread for a worker-thread attempt.
#[derive(Debug, Clone, PartialEq, Eq)]
pub struct AttemptExecutorError {
    /// Human-readable executor failure message.
    message: String,
}

impl View for AttemptExecutorError {
    type V = Seq<char>;

    /// The failure message text.
    closed spec fn view(&self) -> Seq<char> {
        self.message@
    }
}

impl AttemptExecutorError {
    /// Creates an executor failure from a message.
    pub fn new(message: &str) -> (r: Self)
        ensures
            r@ == message@,
    {
        AttemptExecutorError { message: message.to_owned() }
    }

    /// Returns the executor failure message.
    pub fn message(&self) -> (r: &str)
        ensures
            r@ == self@,
    {
        self.message.as_str()
    }
}

} // verus!
