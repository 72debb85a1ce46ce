//! Merging raw configuration values into retry option values.
//!
//! Raw values are read from a configuration source by the driver; the
//! functions here decide what those values mean: which elapsed budget, which
//! attempt timeout and which delay strategy they select.

use std::time::Duration;
use vstd::prelude::*;

use super::attempt_timeout_option::AttemptTimeoutOption;
use super::attempt_timeout_policy::{policy_from_text, AttemptTimeoutPolicy};
use crate::constants::{KEY_ATTEMPT_TIMEOUT_POLICY, KEY_DELAY};
use crate::duration::{duration_nanos, from_millis, nanos_per_milli};
use crate::error::RetryConfigError;
use crate::text::{normalize_spec, normalized_equals, trim_spec};

verus! {

/// Delay strategy kinds that configuration text can name.
#[derive(Debug, Clone, Copy, PartialEq, Eq, Structural)]
pub enum DelayStrategyName {
    /// `none`: retry immediately.
    NoDelay,
    /// `fixed`: a constant delay.
    Fixed,
    /// `random`: a delay drawn from an inclusive range.
    Random,
    /// `exponential` or `exponential_backoff`: capped exponential backoff.
    Exponential,
}

/// The strategy kind named by configuration text, after trimming whitespace
/// and ignoring ASCII case; `None` for unsupported text.
pub open spec fn delay_strategy_from_text(s: Seq<char>) -> Option<DelayStrategyName> {
    let n = normalize_spec(s);
    if n == seq!['n', 'o', 'n', 'e'] {
        Some(DelayStrategyName::NoDelay)
    } else if n == seq!['f', 'i', 'x', 'e', 'd'] {
        Some(DelayStrategyName::Fixed)
    } else if n == seq!['r', 'a', 'n', 'd', 'o', 'm'] {
        Some(DelayStrategyName::Random)
    } else if n == seq!['e', 'x', 'p', 'o', 'n', 'e', 'n', 't', 'i', 'a', 'l'] || n == seq![
        'e',
        'x',
        'p',
        'o',
        'n',
        'e',
        'n',
        't',
        'i',
        'a',
        'l',
        '_',
        'b',
        'a',
        'c',
        'k',
        'o',
        'f',
        'f',
    ] {
        Some(DelayStrategyName::Exponential)
    } else {
        None
    }
}

/// Resolves an elapsed-time budget from configuration.
///
/// `None` (unlimited) when `unlimited` is `Some(true)`; otherwise
/// `millis` milliseconds when present (zero included); otherwise `default`.
pub fn resolve_elapsed_budget(
    unlimited: Option<bool>,
    millis: Option<u64>,
    default: Option<Duration>,
) -> (r: Option<Duration>)
    ensures
        unlimited == Some(true) ==> r is None,
        unlimited != Some(true) && millis is Some ==> (r matches Some(d) && duration_nanos(d)
            == millis.unwrap() * nanos_per_milli()),
        unlimited != Some(true) && millis is None ==> r == default,
{
    if matches!(unlimited, Some(true)) {
        return None;
    }
    match millis {
        Some(m) => Some(from_millis(m)),
        None => default,
    }
}

/// Parses a configured attempt-timeout policy; unsupported text is an
/// invalid-value error for `attempt_timeout_policy`.
pub fn parse_attempt_timeout_policy(value: &str) -> (r: Result<AttemptTimeoutPolicy, RetryConfigError>)
    ensures
        r is Ok <==> policy_from_text(value@) is Some,
        r matches Ok(p) ==> policy_from_text(value@) == Some(p),
        r matches Err(e) ==> e.key_view() == KEY_ATTEMPT_TIMEOUT_POLICY@,
{
    match AttemptTimeoutPolicy::parse(value) {
        Ok(p) => Ok(p),
        Err(message) => Err(RetryConfigError::invalid_value(KEY_ATTEMPT_TIMEOUT_POLICY, message.as_str())),
    }
}

/// Resolves per-attempt timeout settings from configuration.
///
/// An unsupported policy text is an error. With a configured timeout, the
/// policy is the configured one, else the default option's, else `Retry`.
/// Without a configured timeout, a configured policy replaces the default
/// option's policy, and is an error when there is no default option; with no
/// policy either, the default option stands.
pub fn resolve_attempt_timeout(
    timeout_millis: Option<u64>,
    policy_text: Option<&str>,
    default: Option<AttemptTimeoutOption>,
) -> (r: Result<Option<AttemptTimeoutOption>, RetryConfigError>)
    ensures
        r is Err <==> ((policy_text matches Some(t) && policy_from_text(t@) is None) || (
        policy_text is Some && timeout_millis is None && default is None)),
        r matches Err(e) ==> e.key_view() == KEY_ATTEMPT_TIMEOUT_POLICY@,
        r matches Ok(o) ==> match timeout_millis {
            Some(ms) => o matches Some(opt) && duration_nanos(opt@.0) == ms * nanos_per_milli() && opt@.1
                == match policy_text {
                Some(t) => policy_from_text(t@).unwrap(),
                None => match default {
                    Some(d) => d@.1,
                    None => AttemptTimeoutPolicy::Retry,
                },
            },
            None => match policy_text {
                Some(t) => o matches Some(opt) && opt@ == (default.unwrap()@.0, policy_from_text(
                    t@,
                ).unwrap()),
                None => o == default,
            },
        },
{
    let policy = match policy_text {
        Some(t) => Some(parse_attempt_timeout_policy(t)?),
        None => None,
    };
    match timeout_millis {
        Some(ms) => {
            let policy = match policy {
                Some(p) => p,
                None => match default {
                    Some(d) => d.policy(),
                    None => AttemptTimeoutPolicy::Retry,
                },
            };
            Ok(Some(AttemptTimeoutOption::new(from_millis(ms), policy)))
        },
        None => match policy {
            Some(p) => match default {
                Some(d) => Ok(Some(d.with_policy(p))),
                None => Err(
                    RetryConfigError::invalid_value(
                        KEY_ATTEMPT_TIMEOUT_POLICY,
                        "attempt_timeout_policy requires attempt_timeout_millis when the default has no attempt timeout",
                    ),
                ),
            },
            None => Ok(default),
        },
    }
}

/// Builds the message for an unsupported delay strategy name: the normalized
/// text quoted after `unsupported delay strategy `.
fn unsupported_delay_message(text: &str) -> (r: String)
    ensures
        r@ == "unsupported delay strategy '"@ + normalize_spec(text@) + "'"@,
{
    let lower = to_ascii_lowercase(trim(text));
    let mut message = "unsupported delay strategy '".to_owned();
    message.append(lower.as_str());
    message.append("'");
    message
}

/// Parses the configured delay strategy name.
///
/// The primary key `delay` wins over the alias `delay_strategy`. `Ok(None)`
/// when neither is configured; otherwise the named kind, or an invalid-value
/// error for `delay` that quotes the normalized text.
pub fn parse_delay_strategy_name(delay: Option<&str>, delay_strategy: Option<&str>) -> (r: Result<
    Option<DelayStrategyName>,
    RetryConfigError,
>)
    ensures
        delay is None && delay_strategy is None ==> r == Ok::<Option<DelayStrategyName>, RetryConfigError>(None),
        ({
            let text = if delay is Some { delay } else { delay_strategy };
            text matches Some(t) ==> {
                &&& (r is Ok <==> delay_strategy_from_text(t@) is Some)
                &&& (r matches Ok(k) ==> k == delay_strategy_from_text(t@))
                &&& (r matches Err(e) ==> e.key_view() == KEY_DELAY@ && e.message_view()
                    == "unsupported delay strategy '"@ + normalize_spec(t@) + "'"@)
            }
        }),
{
    let text = match delay {
        Some(t) => t,
        None => match delay_strategy {
            Some(t) => t,
            None => {
                return Ok(None);
            },
        },
    };
    proof {
        reveal_strlit("none");
        reveal_strlit("fixed");
        reveal_strlit("random");
        reveal_strlit("exponential");
        reveal_strlit("exponential_backoff");
        assert("none"@ =~= seq!['n', 'o', 'n', 'e']);
        assert("fixed"@ =~= seq!['f', 'i', 'x', 'e', 'd']);
        assert("random"@ =~= seq!['r', 'a', 'n', 'd', 'o', 'm']);
        assert("exponential"@ =~= seq!['e', 'x', 'p', 'o', 'n', 'e', 'n', 't', 'i', 'a', 'l']);
        assert("exponential_backoff"@ =~= seq![
            'e', 'x', 'p', 'o', 'n', 'e', 'n', 't', 'i', 'a', 'l', '_', 'b', 'a', 'c', 'k', 'o', 'f', 'f',
        ]);
    }
    if normalized_equals(text, "none") {
        Ok(Some(DelayStrategyName::NoDelay))
    } else if normalized_equals(text, "fixed") {
        Ok(Some(DelayStrategyName::Fixed))
    } else if normalized_equals(text, "random") {
        Ok(Some(DelayStrategyName::Random))
    } else if normalized_equals(text, "exponential") || normalized_equals(text, "exponential_backoff") {
        Ok(Some(DelayStrategyName::Exponential))
    } else {
        let message = unsupported_delay_message(text);
        Err(RetryConfigError::invalid_value(KEY_DELAY, message.as_str()))
    }
}

/// Selects a delay strategy kind from parameter keys when no strategy name is
/// configured: `fixed` when a fixed delay is present, else `random` when a
/// random bound is present, else `exponential` when an exponential parameter
/// is present, else `None`.
pub fn implicit_delay_strategy(
    fixed_delay_millis: Option<u64>,
    random_min_delay_millis: Option<u64>,
    random_max_delay_millis: Option<u64>,
    exponential_initial_delay_millis: Option<u64>,
    exponential_max_delay_millis: Option<u64>,
    exponential_multiplier_present: bool,
) -> (r: Option<DelayStrategyName>)
    ensures
        r == if fixed_delay_millis is Some {
            Some(DelayStrategyName::Fixed)
        } else if random_min_delay_millis is Some || random_max_delay_millis is Some {
            Some(DelayStrategyName::Random)
        } else if exponential_initial_delay_millis is Some || exponential_max_delay_millis is Some
            || exponential_multiplier_present {
            Some(DelayStrategyName::Exponential)
        } else {
            None
        },
{
    if fixed_delay_millis.is_some() {
        Some(DelayStrategyName::Fixed)
    } else if random_min_delay_millis.is_some() || random_max_delay_millis.is_some() {
        Some(DelayStrategyName::Random)
    } else if exponential_initial_delay_millis.is_some() || exponential_max_delay_millis.is_some()
        || exponential_multiplier_present {
        Some(DelayStrategyName::Exponential)
    } else {
        None
    }
}

/// `str::trim`: `s` without leading and trailing whitespace (characters with
/// the Unicode `White_Space` property).
#[verifier::external_body]
fn trim(s: &str) -> (r: &str)
    ensures
        r@ == trim_spec(s@),
{
    s.trim()
}

/// `str::to_ascii_lowercase`: a copy of `s` with ASCII upper-case letters
/// mapped to lower case and every other character unchanged.
#[verifier::external_body]
fn to_ascii_lowercase(s: &str) -> (r: String)
    ensures
        r@ == crate::text::ascii_lowercase_spec(s@),
{
    s.to_ascii_lowercase()
}

} // verus!
