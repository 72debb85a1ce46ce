//! Invalid retry configuration.

use vstd::prelude::*;

verus! {

/// Error returned when retry options or a retry builder hold an invalid value.
///
/// Carries the configuration key of the offending option and a human-readable
/// description of the problem.
#[derive(Debug, Clone, PartialEq, Eq)]
pub struct RetryConfigError {
    /// Configuration key of the invalid option.
    key: String,
    /// Description of the problem.
    message: String,
}

impl RetryConfigError {
    /// Configuration key of the invalid option.
    pub closed spec fn key_view(&self) -> Seq<char> {
        self.key@
    }

    /// Description of the problem.
    pub closed spec fn message_view(&self) -> Seq<char> {
        self.message@
    }

    /// Creates an invalid-value error for `key`.
    pub fn invalid_value(key: &str, message: &str) -> (r: Self)
        ensures
            r.key_view() == key@,
            r.message_view() == message@,
    {
        RetryConfigError { key: key.to_owned(), message: message.to_owned() }
    }

    /// Returns the configuration key of the invalid option.
    pub fn key(&self) -> (r: &str)
        ensures
            r@ == self.key_view(),
    {
        self.key.as_str()
    }

    /// Returns the description of the problem.
    pub fn message(&self) -> (r: &str)
        ensures
            r@ == self.message_view(),
    {
        self.message.as_str()
    }
}

} // verus!
