//! Captured attempt panic information.

use vstd::prelude::*;

verus! {

/// Panic payload captured from an isolated attempt.
///
/// `AttemptPanic` stores a best-effort text message extracted from the panic
/// payload. String payloads keep their text; all other payload
/// types use a generic message.
#[derive(Debug, Clone, PartialEq, Eq)]
pub struct AttemptPanic {
    /// Human-readable panic message.
    message: String,
}

impl View for AttemptPanic {
    type V = Seq<char>;

    /// The captured panic message text.
    closed spec fn view(&self) -> Seq<char> {
        self.message@
    }
}

impl AttemptPanic {
    /// Creates captured panic information from a message.
    pub fn new(message: &str) -> (r: Self)
        ensures
            r@ == message@,
    {
        Self::from_string(message.to_owned())
    }

    /// Creates captured panic information from an owned message.
    pub fn from_string(message: String) -> (r: Self)
        ensures
            r@ == message@,
    {
        AttemptPanic { message }
    }

    /// Creates captured panic information from the text a panic payload
    /// carried (a `String` or `&'static str` payload), or, for a payload of
    /// any other type, a fixed message saying so.
    pub fn from_payload_text(message: Option<String>) -> (r: Self)
        ensures
            r@ == match message {
                Some(m) => m@,
                None => "attempt panicked with a non-string payload"@,
            },
    {
        match message {
            Some(m) => Self::from_string(m),
            None => Self::new("attempt panicked with a non-string payload"),
        }
    }

    /// Returns the captured panic message.
    pub fn message(&self) -> (r: &str)
        ensures
            r@ == self@,
    {
        self.message.as_str()
    }
}

} // verus!
