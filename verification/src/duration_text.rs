//! Durations written as a whole number with an optional unit, such as `250ms`.
//!
//! Delay strategy descriptions (`fixed(500ms)`, `random(1s..=5s)`) write their
//! durations this way. A number alone counts milliseconds; the accepted units
//! are `ns`, `us`, `ms`, `s`, `m` and `h`; surrounding whitespace is ignored.
//! Durations are written back as whole milliseconds (saturated at `u64::MAX`)
//! with the `ms` unit.

use std::time::Duration;
use vstd::prelude::*;

use crate::decimal::{append_decimal, decimal_spec, digits_value, is_digit, lemma_decimal_spec};
use crate::duration::{as_nanos, duration_nanos, from_secs_nanos, max_duration_nanos};
use crate::text::{chars_of, first_non_ws_from, last_non_ws_before, trim_spec, trimmed_range};

verus! {

broadcast use vstd::string::group_string_axioms;

/// Index of the first character at or after `i` that is not a digit, or
/// `s.len()`.
pub open spec fn digit_run(s: Seq<char>, i: int) -> int
    decreases s.len() - i,
{
    if i >= s.len() {
        s.len() as int
    } else if is_digit(s[i]) {
        digit_run(s, i + 1)
    } else {
        i
    }
}

/// Nanoseconds in one unit named by `u`; no unit at all means milliseconds.
pub open spec fn unit_nanos(u: Seq<char>) -> Option<nat> {
    if u.len() == 0 {
        Some(1_000_000)
    } else if u == seq!['n', 's'] {
        Some(1)
    } else if u == seq!['u', 's'] {
        Some(1_000)
    } else if u == seq!['m', 's'] {
        Some(1_000_000)
    } else if u == seq!['s'] {
        Some(1_000_000_000)
    } else if u == seq!['m'] {
        Some(60_000_000_000)
    } else if u == seq!['h'] {
        Some(3_600_000_000_000)
    } else {
        None
    }
}

/// Nanoseconds written by duration text: after trimming, one or more digits
/// followed by nothing or a supported unit name; `None` for any other text.
pub open spec fn text_nanos(s: Seq<char>) -> Option<nat> {
    let t = trim_spec(s);
    let k = digit_run(t, 0);
    if k == 0 {
        None
    } else {
        match unit_nanos(t.subrange(k, t.len() as int)) {
            Some(u) => Some(digits_value(t.subrange(0, k)) * u),
            None => None,
        }
    }
}

/// Whole milliseconds in `n` nanoseconds, saturated at `u64::MAX`.
pub open spec fn saturated_millis(n: nat) -> nat {
    if n / 1_000_000 <= u64::MAX {
        n / 1_000_000
    } else {
        u64::MAX as nat
    }
}

/// The text written for a duration of `n` nanoseconds: its whole
/// milliseconds, saturated at `u64::MAX`, with `ms`.
pub open spec fn duration_text_spec(n: nat) -> Seq<char> {
    decimal_spec(saturated_millis(n)) + seq!['m', 's']
}

/// Reads a unit name from `v[start..end]`, as nanoseconds per unit.
fn unit_nanos_at(v: &Vec<char>, start: usize, end: usize) -> (r: Option<u64>)
    requires
        start <= end <= v@.len(),
    ensures
        match unit_nanos(v@.subrange(start as int, end as int)) {
            Some(n) => r == Some(n as u64),
            None => r is None,
        },
{
    let ghost u = v@.subrange(start as int, end as int);
    let n = end - start;
    if n == 0 {
        Some(1_000_000)
    } else if n == 1 {
        let c = v[start];
        assert(u =~= seq![c]);
        if c == 's' {
            Some(1_000_000_000)
        } else if c == 'm' {
            Some(60_000_000_000)
        } else if c == 'h' {
            Some(3_600_000_000_000)
        } else {
            assert(u[0] != seq!['s'][0] && u[0] != seq!['m'][0] && u[0] != seq!['h'][0]);
            None
        }
    } else if n == 2 {
        let a = v[start];
        let b = v[start + 1];
        assert(u =~= seq![a, b]);
        if b != 's' {
            assert(u[1] != seq!['n', 's'][1] && u[1] != seq!['u', 's'][1] && u[1] != seq!['m', 's'][1]);
            None
        } else if a == 'n' {
            Some(1)
        } else if a == 'u' {
            Some(1_000)
        } else if a == 'm' {
            Some(1_000_000)
        } else {
            assert(u[0] != seq!['n', 's'][0] && u[0] != seq!['u', 's'][0] && u[0] != seq!['m', 's'][0]);
            None
        }
    } else {
        assert(u.len() != 1 && u.len() != 2);
        None
    }
}

/// Reads duration text: after trimming, one or more ASCII digits followed by
/// nothing (milliseconds) or one of the units `ns`, `us`, `ms`, `s`, `m`,
/// `h`. `None` for other text, and for a duration longer than
/// `Duration::MAX`.
pub fn parse_duration_text(s: &str) -> (r: Option<Duration>)
    ensures
        r is Some <==> (text_nanos(s@) matches Some(n) && n <= max_duration_nanos()),
        r matches Some(d) ==> text_nanos(s@) == Some(duration_nanos(d)),
{
    let v = chars_of(s);
    let (lo, hi) = trimmed_range(&v);
    let ghost t = trim_spec(s@);
    assert(t == v@.subrange(lo as int, hi as int));
    let mut i: usize = lo;
    let mut value: u128 = 0;
    let mut overflow = false;
    while i < hi && '0' <= v[i] && v[i] <= '9'
        invariant
            v@ == s@,
            lo <= i <= hi <= v@.len(),
            t == v@.subrange(lo as int, hi as int),
            digit_run(t, 0) == digit_run(t, i - lo),
            !overflow ==> value == digits_value(t.subrange(0, i - lo)),
            overflow ==> digits_value(t.subrange(0, i - lo)) > u128::MAX,
        decreases hi - i,
    {
        let ghost k: int = i - lo;
        assert(t[k] == v@[i as int]);
        assert(t.subrange(0, k + 1).drop_last() =~= t.subrange(0, k));
        let d = (v[i] as u32 - '0' as u32) as u128;
        if !overflow {
            if value > (u128::MAX - d) / 10 {
                overflow = true;
            } else {
                value = value * 10 + d;
            }
        }
        i = i + 1;
    }
    let ghost k: int = i - lo;
    assert(digit_run(t, k) == k) by {
        if k < t.len() {
            assert(t[k] == v@[i as int]);
        }
    }
    if i == lo {
        return None;
    }
    assert(v@.subrange(i as int, hi as int) =~= t.subrange(k, t.len() as int));
    let unit = match unit_nanos_at(&v, i, hi) {
        Some(u) => u as u128,
        None => {
            return None;
        },
    };
    let ghost total = digits_value(t.subrange(0, k)) * unit;
    assert(total == text_nanos(s@).unwrap());
    if overflow {
        proof {
            let dv = digits_value(t.subrange(0, k));
            assert(dv * unit >= dv) by (nonlinear_arith)
                requires
                    unit >= 1,
            ;
        }
        return None;
    }
    let n = match value.checked_mul(unit) {
        Some(n) => n,
        None => {
            return None;
        },
    };
    let secs = n / 1_000_000_000;
    if secs > u64::MAX as u128 {
        return None;
    }
    Some(from_secs_nanos(secs as u64, (n % 1_000_000_000) as u32))
}

/// Writes a duration as its whole milliseconds, saturated at `u64::MAX`,
/// followed by `ms` (`1500ms`); [`parse_duration_text`] reads it back.
pub fn format_duration_text(d: &Duration) -> (r: String)
    ensures
        r@ == duration_text_spec(duration_nanos(*d)),
{
    proof {
        reveal_strlit("ms");
    }
    let n = as_nanos(d);
    let millis = n / 1_000_000;
    let saturated = if millis > u64::MAX as u128 {
        u64::MAX as u128
    } else {
        millis
    };
    let mut text = String::new();
    append_decimal(&mut text, saturated);
    text.append("ms");
    assert(text@ =~= duration_text_spec(duration_nanos(*d)));
    text
}

/// In `w`, the digits `w[i..digits]` are followed by the non-digit
/// `w[digits]`: the digit run from `i` ends at `digits`.
proof fn lemma_digit_run_ends(w: Seq<char>, i: int, digits: int)
    requires
        0 <= i <= digits < w.len(),
        forall|m: int| 0 <= m < digits ==> is_digit(#[trigger] w[m]),
        !is_digit(w[digits]),
    ensures
        digit_run(w, i) == digits,
    decreases digits - i,
{
    if i < digits {
        lemma_digit_run_ends(w, i + 1, digits);
    }
}

/// Writing a duration of `n` nanoseconds as text and reading the text back
/// gives the duration truncated to whole milliseconds, when those
/// milliseconds do not exceed `u64::MAX`.
pub proof fn law_duration_text_round_trip(n: nat)
    requires
        n / 1_000_000 <= u64::MAX,
    ensures
        text_nanos(duration_text_spec(n)) == Some((n / 1_000_000) * 1_000_000),
{
    let q: nat = n / 1_000_000;
    let unit = seq!['m', 's'];
    let digits = decimal_spec(q);
    lemma_decimal_spec(q);
    let w = digits + unit;
    assert(w == duration_text_spec(n));
    let len = w.len() as int;
    let dl = digits.len() as int;
    assert(!crate::text::is_whitespace_spec(w[0]));
    assert(first_non_ws_from(w, 0) == 0);
    assert(w[len - 1] == 's');
    assert(last_non_ws_before(w, 0, len) == len);
    assert(trim_spec(w) =~= w);
    assert forall|m: int| 0 <= m < dl implies is_digit(#[trigger] w[m]) by {
        assert(w[m] == digits[m]);
    }
    lemma_digit_run_ends(w, 0, dl);
    assert(w.subrange(0, dl) =~= digits);
    assert(w.subrange(dl, len) =~= unit);
    assert(trim_spec(w).subrange(dl, trim_spec(w).len() as int) == unit);
    assert(trim_spec(w).subrange(0, dl) == digits);
    assert(unit_nanos(unit) == Some(1_000_000nat));
    assert(text_nanos(w) == Some(q * 1_000_000));
}

} // verus!
