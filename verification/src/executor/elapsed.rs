//! Elapsed-time arithmetic used by the retry flow.

use std::time::Duration;
use vstd::prelude::*;

use crate::duration::{checked_add, duration_nanos, le, max_duration_nanos, saturating_add, saturating_sum_nanos};

verus! {

/// Adds one attempt duration to the cumulative user-operation elapsed time,
/// saturating at `Duration::MAX`.
pub fn add_elapsed(total_elapsed: Duration, attempt_elapsed: Duration) -> (r: Duration)
    ensures
        duration_nanos(r) == saturating_sum_nanos(duration_nanos(total_elapsed), duration_nanos(attempt_elapsed)),
{
    saturating_add(total_elapsed, attempt_elapsed)
}

/// Whether sleeping `delay` after `elapsed` would reach the budget
/// `max_elapsed`: the sum is at least the budget, or the sum overflows
/// `Duration::MAX`.
pub open spec fn will_exceed_elapsed_spec(elapsed: Duration, delay: Duration, max_elapsed: Duration) -> bool {
    duration_nanos(elapsed) + duration_nanos(delay) > max_duration_nanos()
        || duration_nanos(elapsed) + duration_nanos(delay) >= duration_nanos(max_elapsed)
}

/// Checks whether sleeping would exhaust the elapsed-time budget.
///
/// `true` when `elapsed + delay` is greater than or equal to `max_elapsed`, or
/// when the addition overflows, so that the flow never sleeps with a bogus
/// duration.
pub fn will_exceed_elapsed(elapsed: Duration, delay: Duration, max_elapsed: Duration) -> (r: bool)
    ensures
        r == will_exceed_elapsed_spec(elapsed, delay, max_elapsed),
{
    match checked_add(elapsed, delay) {
        Some(next_elapsed) => le(&max_elapsed, &next_elapsed),
        None => true,
    }
}

} // verus!
