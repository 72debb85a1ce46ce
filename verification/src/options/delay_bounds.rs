//! Validation of the duration parameters of delay strategies.

use std::time::Duration;
use vstd::prelude::*;

use crate::duration::{duration_nanos, is_zero, le};

verus! {

/// Checks a fixed delay: `Ok(())` exactly when it is non-zero.
pub fn validate_fixed_delay(delay: Duration) -> (r: Result<(), String>)
    ensures
        r is Ok <==> duration_nanos(delay) > 0,
        r matches Err(m) ==> m@ == "fixed delay cannot be zero"@,
{
    if is_zero(&delay) {
        Err("fixed delay cannot be zero".to_owned())
    } else {
        Ok(())
    }
}

/// Checks a random delay range: `Ok(())` exactly when the minimum is
/// non-zero and does not exceed the maximum (a zero minimum is reported
/// first).
pub fn validate_random_range(min: Duration, max: Duration) -> (r: Result<(), String>)
    ensures
        r is Ok <==> (duration_nanos(min) > 0 && duration_nanos(min) <= duration_nanos(max)),
        r matches Err(m) ==> m@ == if duration_nanos(min) == 0 {
            "random delay minimum cannot be zero"@
        } else {
            "random delay minimum cannot be greater than maximum"@
        },
{
    if is_zero(&min) {
        Err("random delay minimum cannot be zero".to_owned())
    } else if !le(&min, &max) {
        Err("random delay minimum cannot be greater than maximum".to_owned())
    } else {
        Ok(())
    }
}

/// Checks the durations of an exponential backoff: `Ok(())` exactly when the
/// initial delay is non-zero and the maximum is not smaller than it (a zero
/// initial delay is reported first). The multiplier is checked separately.
pub fn validate_exponential_range(initial: Duration, max: Duration) -> (r: Result<(), String>)
    ensures
        r is Ok <==> (duration_nanos(initial) > 0 && duration_nanos(initial) <= duration_nanos(max)),
        r matches Err(m) ==> m@ == if duration_nanos(initial) == 0 {
            "exponential delay initial value cannot be zero"@
        } else {
            "exponential delay maximum cannot be smaller than initial"@
        },
{
    if is_zero(&initial) {
        Err("exponential delay initial value cannot be zero".to_owned())
    } else if !le(&initial, &max) {
        Err("exponential delay maximum cannot be smaller than initial".to_owned())
    } else {
        Ok(())
    }
}

} // verus!
