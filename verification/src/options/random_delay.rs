//! Random base delays drawn from an inclusive range.

use std::time::Duration;
use rand::RngExt;
use vstd::prelude::*;

use crate::duration::{duration_nanos, duration_to_nanos_u64, from_nanos, le};

verus! {

/// A uniformly distributed value in `lo..=hi`, drawn from the thread-local
/// generator with `rand::rng().random_range(lo..=hi)`, which panics only on an
/// empty range.
#[verifier::external_body]
fn random_u64_inclusive(lo: u64, hi: u64) -> (r: u64)
    requires
        lo <= hi,
    ensures
        lo <= r <= hi,
{
    rand::rng().random_range(lo..=hi)
}

/// Nanoseconds of a duration, saturated at `u64::MAX`.
pub open spec fn saturated_nanos(d: Duration) -> nat {
    if duration_nanos(d) <= u64::MAX as nat {
        duration_nanos(d)
    } else {
        u64::MAX as nat
    }
}

/// The base delay of a random delay strategy for the draw `draw`: `min`
/// when `min >= max`, otherwise the duration of `draw` nanoseconds.
pub fn random_delay_from_draw(min: Duration, max: Duration, draw: u64) -> (r: Duration)
    ensures
        duration_nanos(min) >= duration_nanos(max) ==> r == min,
        duration_nanos(min) < duration_nanos(max) ==> duration_nanos(r) == draw,
{
    if le(&max, &min) {
        min
    } else {
        from_nanos(draw)
    }
}

/// Draws the base delay of a random delay strategy.
///
/// When `min >= max` the result is `min`; otherwise it is a fresh random
/// duration between `min` and `max` inclusive, in whole nanoseconds saturated
/// at `u64::MAX`, drawn by [`random_u64_inclusive`] and turned into a delay by
/// [`random_delay_from_draw`].
pub fn random_delay(min: Duration, max: Duration) -> (r: Duration)
    ensures
        duration_nanos(min) >= duration_nanos(max) ==> r == min,
        duration_nanos(min) < duration_nanos(max) ==> saturated_nanos(min) <= duration_nanos(r)
            <= saturated_nanos(max),
{
    if le(&max, &min) {
        return min;
    }
    let lo = duration_to_nanos_u64(&min);
    let hi = duration_to_nanos_u64(&max);
    random_delay_from_draw(min, max, random_u64_inclusive(lo, hi))
}

} // verus!
