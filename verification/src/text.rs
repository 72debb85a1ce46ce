//! Character-level helpers for parsing configuration text.
//!
//! Parsing of policy and strategy names ignores surrounding whitespace (as
//! `str::trim` does) and ASCII letter case (as `str::to_ascii_lowercase` does).

use vstd::prelude::*;

verus! {

broadcast use vstd::string::group_string_axioms;

/// Whether `c` has the Unicode `White_Space` property, as `char::is_whitespace`
/// reports.
pub open spec fn is_whitespace_spec(c: char) -> bool {
    let u = c as u32;
    ||| (0x09 <= u && u <= 0x0D)
    ||| u == 0x20
    ||| u == 0x85
    ||| u == 0xA0
    ||| u == 0x1680
    ||| (0x2000 <= u && u <= 0x200A)
    ||| u == 0x2028
    ||| u == 0x2029
    ||| u == 0x202F
    ||| u == 0x205F
    ||| u == 0x3000
}

/// `c` with ASCII upper-case letters mapped to lower case, as
/// `char::to_ascii_lowercase` does.
pub open spec fn ascii_lower_spec(c: char) -> char {
    if 'A' <= c && c <= 'Z' {
        ((c as u32) + 32) as char
    } else {
        c
    }
}

/// Index of the first non-whitespace character at or after `i`, or `s.len()`.
pub open spec fn first_non_ws_from(s: Seq<char>, i: int) -> int
    decreases s.len() - i,
{
    if i >= s.len() {
        s.len() as int
    } else if is_whitespace_spec(s[i]) {
        first_non_ws_from(s, i + 1)
    } else {
        i
    }
}

/// One past the index of the last non-whitespace character before `j`, or
/// `lo` when `s[lo..j]` is all whitespace.
pub open spec fn last_non_ws_before(s: Seq<char>, lo: int, j: int) -> int
    decreases j - lo,
{
    if j <= lo {
        lo
    } else if is_whitespace_spec(s[j - 1]) {
        last_non_ws_before(s, lo, j - 1)
    } else {
        j
    }
}

/// `s` without leading and trailing whitespace, as `str::trim` returns.
pub open spec fn trim_spec(s: Seq<char>) -> Seq<char> {
    let lo = first_non_ws_from(s, 0);
    s.subrange(lo, last_non_ws_before(s, lo, s.len() as int))
}

/// `s` with every ASCII upper-case letter mapped to lower case.
pub open spec fn ascii_lowercase_spec(s: Seq<char>) -> Seq<char> {
    s.map_values(|c: char| ascii_lower_spec(c))
}

/// The normalized form of configuration text: trimmed, then ASCII-lowercased.
pub open spec fn normalize_spec(s: Seq<char>) -> Seq<char> {
    ascii_lowercase_spec(trim_spec(s))
}

/// `char::is_whitespace`.
pub fn is_whitespace(c: char) -> (r: bool)
    ensures
        r == is_whitespace_spec(c),
{
    let u = c as u32;
    (0x09 <= u && u <= 0x0D) || u == 0x20 || u == 0x85 || u == 0xA0 || u == 0x1680 || (0x2000
        <= u && u <= 0x200A) || u == 0x2028 || u == 0x2029 || u == 0x202F || u == 0x205F || u
        == 0x3000
}

/// Returns whether `ascii_lower_spec(c) == lower`, for a lower-case ASCII
/// letter or any non-letter `lower`.
pub fn lower_matches(c: char, lower: char) -> (r: bool)
    requires
        !('A' <= lower && lower <= 'Z'),
    ensures
        r == (ascii_lower_spec(c) == lower),
{
    if 'A' <= c && c <= 'Z' {
        (c as u32) + 32 == (lower as u32)
    } else {
        c == lower
    }
}

/// Collects the characters of `s`.
pub fn chars_of(s: &str) -> (v: Vec<char>)
    ensures
        v@ == s@,
{
    let mut v: Vec<char> = Vec::new();
    for c in it: s.chars()
        invariant
            v@ == it.seq().take(it.index() as int),
            it.seq() == s@,
    {
        v.push(c);
    }
    v
}

/// Bounds `(lo, hi)` of the trimmed part of `v`: `v[lo..hi]` is `v` without
/// leading and trailing whitespace.
pub fn trimmed_range(v: &Vec<char>) -> (r: (usize, usize))
    ensures
        r.0 <= r.1 <= v@.len(),
        r.0 == first_non_ws_from(v@, 0),
        r.1 == last_non_ws_before(v@, r.0 as int, v@.len() as int),
        v@.subrange(r.0 as int, r.1 as int) == trim_spec(v@),
{
    let n = v.len();
    let mut lo: usize = 0;
    while lo < n && is_whitespace(v[lo])
        invariant
            n == v@.len(),
            lo <= n,
            first_non_ws_from(v@, 0) == first_non_ws_from(v@, lo as int),
        decreases n - lo,
    {
        lo = lo + 1;
    }
    assert(first_non_ws_from(v@, lo as int) == lo as int);
    let mut hi: usize = n;
    while hi > lo && is_whitespace(v[hi - 1])
        invariant
            n == v@.len(),
            lo <= hi <= n,
            first_non_ws_from(v@, 0) == lo as int,
            last_non_ws_before(v@, lo as int, n as int) == last_non_ws_before(v@, lo as int, hi as int),
        decreases hi - lo,
    {
        hi = hi - 1;
    }
    assert(last_non_ws_before(v@, lo as int, hi as int) == hi as int);
    (lo, hi)
}


/// Returns whether the normalized form of `s` (trimmed, ASCII-lowercased) is
/// exactly `target`, whose characters hold no upper-case ASCII letter.
pub fn normalized_equals(s: &str, target: &str) -> (r: bool)
    requires
        forall|k: int| 0 <= k < target@.len() ==> !('A' <= #[trigger] target@[k] && target@[k] <= 'Z'),
    ensures
        r == (normalize_spec(s@) == target@),
{
    let v = chars_of(s);
    let t = chars_of(target);
    let (lo, hi) = trimmed_range(&v);
    let n = v.len();
    let ghost trimmed = s@.subrange(lo as int, hi as int);
    assert(trim_spec(s@) == trimmed);
    if hi - lo != t.len() {
        assert(normalize_spec(s@).len() != target@.len());
        return false;
    }
    let mut k: usize = 0;
    while k < t.len()
        invariant
            v@ == s@,
            t@ == target@,
            n == v@.len(),
            lo <= hi <= n,
            hi - lo == t@.len(),
            trimmed == s@.subrange(lo as int, hi as int),
            trim_spec(s@) == trimmed,
            k <= t@.len(),
            forall|m: int| 0 <= m < target@.len() ==> !('A' <= #[trigger] target@[m] && target@[m] <= 'Z'),
            forall|m: int| 0 <= m < k ==> ascii_lower_spec(#[trigger] trimmed[m]) == target@[m],
        decreases t.len() - k,
    {
        if !lower_matches(v[lo + k], t[k]) {
            assert(normalize_spec(s@)[k as int] != target@[k as int]);
            return false;
        }
        k = k + 1;
    }
    assert(normalize_spec(s@) =~= target@);
    true
}

} // verus!
