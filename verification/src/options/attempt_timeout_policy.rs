//! Attempt timeout policy.

use std::str::FromStr;
use vstd::prelude::*;

use crate::text::{normalize_spec, normalized_equals};

verus! {

/// Action taken when one attempt exceeds its configured per-attempt timeout.
///
/// The policy is the default decision for configured attempt-timeout
/// failures. Elapsed-budget effective timeouts stop the retry flow with
/// [`crate::RetryErrorReason::MaxOperationElapsedExceeded`] or
/// [`crate::RetryErrorReason::MaxTotalElapsedExceeded`] instead. Explicit
/// failure listeners can still return their own decision for configured
/// timeouts.
#[derive(Debug, Clone, Copy, PartialEq, Eq, Structural)]
pub enum AttemptTimeoutPolicy {
    /// Retry timed-out attempts while normal retry limits allow it.
    Retry,
    /// Abort the retry flow immediately when an attempt times out.
    Abort,
}

/// The policy named by configuration text: `retry` or `abort` after trimming
/// whitespace and ignoring ASCII case; `None` for any other text.
pub open spec fn policy_from_text(s: Seq<char>) -> Option<AttemptTimeoutPolicy> {
    if normalize_spec(s) == seq!['r', 'e', 't', 'r', 'y'] {
        Some(AttemptTimeoutPolicy::Retry)
    } else if normalize_spec(s) == seq!['a', 'b', 'o', 'r', 't'] {
        Some(AttemptTimeoutPolicy::Abort)
    } else {
        None
    }
}

impl AttemptTimeoutPolicy {
    /// The lower-case configuration text of this policy.
    pub open spec fn text(self) -> Seq<char> {
        match self {
            AttemptTimeoutPolicy::Retry => seq!['r', 'e', 't', 'r', 'y'],
            AttemptTimeoutPolicy::Abort => seq!['a', 'b', 'o', 'r', 't'],
        }
    }

    /// Returns the policy as lower-case configuration text.
    pub fn as_str(&self) -> (r: &'static str)
        ensures
            r@ == self.text(),
    {
        match self {
            AttemptTimeoutPolicy::Retry => {
                proof {
                    reveal_strlit("retry");
                    assert("retry"@ =~= seq!['r', 'e', 't', 'r', 'y']);
                }
                "retry"
            },
            AttemptTimeoutPolicy::Abort => {
                proof {
                    reveal_strlit("abort");
                    assert("abort"@ =~= seq!['a', 'b', 'o', 'r', 't']);
                }
                "abort"
            },
        }
    }

    /// Parses a timeout policy from configuration text.
    ///
    /// Surrounding whitespace and ASCII case are ignored. Any text other than
    /// `retry` or `abort` is rejected with a message.
    pub fn parse(s: &str) -> (r: Result<AttemptTimeoutPolicy, String>)
        ensures
            r is Ok <==> policy_from_text(s@) is Some,
            r matches Ok(p) ==> policy_from_text(s@) == Some(p),
            r matches Err(m) ==> m@ == "attempt timeout policy must be `retry` or `abort`"@,
    {
        proof {
            reveal_strlit("retry");
            reveal_strlit("abort");
            assert("retry"@ =~= seq!['r', 'e', 't', 'r', 'y']);
            assert("abort"@ =~= seq!['a', 'b', 'o', 'r', 't']);
        }
        if normalized_equals(s, "retry") {
            Ok(AttemptTimeoutPolicy::Retry)
        } else if normalized_equals(s, "abort") {
            Ok(AttemptTimeoutPolicy::Abort)
        } else {
            Err("attempt timeout policy must be `retry` or `abort`".to_owned())
        }
    }
}

impl Default for AttemptTimeoutPolicy {
    /// [`AttemptTimeoutPolicy::Retry`].
    fn default() -> (r: Self)
        ensures
            r == AttemptTimeoutPolicy::Retry,
    {
        AttemptTimeoutPolicy::Retry
    }
}

impl FromStr for AttemptTimeoutPolicy {
    type Err = String;

    /// Parses a timeout policy from configuration text; see
    /// [`AttemptTimeoutPolicy::parse`].
    fn from_str(s: &str) -> (r: Result<Self, Self::Err>)
        ensures
            r is Ok <==> policy_from_text(s@) is Some,
            r matches Ok(p) ==> policy_from_text(s@) == Some(p),
            r matches Err(m) ==> m@ == "attempt timeout policy must be `retry` or `abort`"@,
    {
        AttemptTimeoutPolicy::parse(s)
    }
}

/// The text of a policy parses back to the same policy.
pub proof fn law_policy_text_round_trip(p: AttemptTimeoutPolicy)
    ensures
        policy_from_text(p.text()) == Some(p),
{
    let s = p.text();
    assert(crate::text::first_non_ws_from(s, 0) == 0);
    assert(crate::text::last_non_ws_before(s, 0, 5) == 5);
    assert(crate::text::trim_spec(s) =~= s);
    assert(normalize_spec(s) =~= s);
}

} // verus!
