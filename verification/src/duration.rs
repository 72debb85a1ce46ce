//! Arithmetic on [`std::time::Duration`] with a nanosecond model.
//!
//! A `Duration` is opaque to the verifier. Its meaning is the whole number of
//! nanoseconds it spans, named [`duration_nanos`]; every operation on durations
//! that the retry logic performs goes through one of the small functions below,
//! whose contracts restate the standard library documentation in terms of that
//! number.

use std::time::Duration;
use vstd::prelude::*;

verus! {

/// Number of nanoseconds spanned by a duration, as reported by
/// `Duration::new`: `secs` seconds and `nanos` nanoseconds; with `nanos`
/// below one second nothing carries over, so the call cannot overflow.
#[verifier::external_body]
pub(crate) fn from_secs_nanos(secs: u64, nanos: u32) -> (d: Duration)
    requires
        nanos < 1_000_000_000,
    ensures
        duration_nanos(d) == secs * 1_000_000_000 + nanos,
{
    Duration::new(secs, nanos)
}

/// `Duration::as_nanos`. This is the model of a `Duration` for contracts.
pub uninterp spec fn duration_nanos(d: Duration) -> nat;

/// Number of nanoseconds in one millisecond.
pub open spec fn nanos_per_milli() -> nat {
    1_000_000
}

/// Nanoseconds spanned by `Duration::MAX` (`u64::MAX` seconds plus
/// 999_999_999 nanoseconds).
pub open spec fn max_duration_nanos() -> nat {
    18_446_744_073_709_551_615 * 1_000_000_000 + 999_999_999
}

/// Saturating sum of two nanosecond counts, capped at `Duration::MAX`.
pub open spec fn saturating_sum_nanos(a: nat, b: nat) -> nat {
    if a + b <= max_duration_nanos() {
        a + b
    } else {
        max_duration_nanos()
    }
}

/// Saturating difference of two nanosecond counts, floored at zero.
pub open spec fn saturating_diff_nanos(a: nat, b: nat) -> nat {
    if a >= b {
        (a - b) as nat
    } else {
        0
    }
}

/// `Duration::ZERO`: spans zero nanoseconds.
#[verifier::external_body]
pub(crate) fn zero() -> (d: Duration)
    ensures
        duration_nanos(d) == 0,
{
    Duration::ZERO
}

/// `Duration::from_millis`: spans `millis * 1_000_000` nanoseconds.
#[verifier::external_body]
pub(crate) fn from_millis(millis: u64) -> (d: Duration)
    ensures
        duration_nanos(d) == millis * nanos_per_milli(),
{
    Duration::from_millis(millis)
}

/// `Duration::from_nanos`: spans exactly `nanos` nanoseconds.
#[verifier::external_body]
pub(crate) fn from_nanos(nanos: u64) -> (d: Duration)
    ensures
        duration_nanos(d) == nanos,
{
    Duration::from_nanos(nanos)
}

/// `Duration::as_nanos`: the total number of whole nanoseconds, which never
/// exceeds the span of `Duration::MAX`.
#[verifier::external_body]
pub(crate) fn as_nanos(d: &Duration) -> (n: u128)
    ensures
        n == duration_nanos(*d),
        n <= max_duration_nanos(),
{
    d.as_nanos()
}

/// `Duration::saturating_add`: the sum, or `Duration::MAX` on overflow.
#[verifier::external_body]
pub(crate) fn saturating_add(a: Duration, b: Duration) -> (d: Duration)
    ensures
        duration_nanos(d) == saturating_sum_nanos(duration_nanos(a), duration_nanos(b)),
{
    a.saturating_add(b)
}

/// `Duration::checked_add`: the sum, or `None` when it would exceed
/// `Duration::MAX`.
#[verifier::external_body]
pub(crate) fn checked_add(a: Duration, b: Duration) -> (d: Option<Duration>)
    ensures
        d is Some <==> duration_nanos(a) + duration_nanos(b) <= max_duration_nanos(),
        d matches Some(s) ==> duration_nanos(s) == duration_nanos(a) + duration_nanos(b),
{
    a.checked_add(b)
}

/// `Duration::saturating_sub`: the difference, or zero when `b > a`.
#[verifier::external_body]
pub(crate) fn saturating_sub(a: Duration, b: Duration) -> (d: Duration)
    ensures
        duration_nanos(d) == saturating_diff_nanos(duration_nanos(a), duration_nanos(b)),
{
    a.saturating_sub(b)
}

/// Returns whether `a` spans no more time than `b`.
pub fn le(a: &Duration, b: &Duration) -> (r: bool)
    ensures
        r == (duration_nanos(*a) <= duration_nanos(*b)),
{
    as_nanos(a) <= as_nanos(b)
}

/// Returns whether `d` spans zero nanoseconds.
pub fn is_zero(d: &Duration) -> (r: bool)
    ensures
        r == (duration_nanos(*d) == 0),
{
    as_nanos(d) == 0
}

/// Converts a duration to whole nanoseconds as `u64`, saturating at
/// `u64::MAX`.
pub fn duration_to_nanos_u64(d: &Duration) -> (n: u64)
    ensures
        n == if duration_nanos(*d) <= u64::MAX as nat { duration_nanos(*d) } else { u64::MAX as nat },
{
    let n = as_nanos(d);
    if n <= u64::MAX as u128 {
        n as u64
    } else {
        u64::MAX
    }
}

/// Text that `{:?}` formatting renders for a duration (such as `1.5s` or
/// `250ms`).
pub uninterp spec fn duration_debug_text(d: Duration) -> Seq<char>;

/// `<Duration as Debug>::fmt`, rendered with `format!("{:?}", d)`; the text
/// depends on the duration alone.
#[verifier::external_body]
pub(crate) fn debug_text(d: &Duration) -> (r: String)
    ensures
        r@ == duration_debug_text(*d),
{
    format!("{:?}", d)
}

} // verus!
