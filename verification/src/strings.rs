//! Verified text-scanning primitives.
//!
//! Every extraction heuristic in the storefront adapters is built from the
//! same few operations: turning a string into its characters, testing a
//! pattern at a position, finding the leftmost occurrence of a pattern, and
//! case-insensitive comparison of ASCII keywords.

use vstd::prelude::*;

verus! {

/// The characters of `s`, in order.
pub fn to_chars(s: &str) -> (v: Vec<char>)
    ensures
        v@ == s@,
{
    let n = s.unicode_len();
    let mut v: Vec<char> = Vec::new();
    let mut i: usize = 0;
    while i < n
        invariant
            i <= n,
            n == s@.len(),
            v@ == s@.subrange(0, i as int),
        decreases n - i,
    {
        v.push(s.get_char(i));
        assert(v@ =~= s@.subrange(0, i + 1));
        i += 1;
    }
    assert(v@ =~= s@);
    v
}

/// The pattern `pat` occurs in `s` starting at index `i`.
pub open spec fn match_at(s: Seq<char>, pat: Seq<char>, i: int) -> bool {
    &&& 0 <= i
    &&& i + pat.len() <= s.len()
    &&& forall|k: int| 0 <= k < pat.len() ==> s[i + k] == #[trigger] pat[k]
}

/// The least index `>= from` at which `pat` occurs in `s`, if any.
pub open spec fn spec_find(s: Seq<char>, pat: Seq<char>, from: int) -> Option<int>
    decreases s.len() - from,
{
    if from < 0 || from + pat.len() > s.len() {
        None
    } else if match_at(s, pat, from) {
        Some(from)
    } else {
        spec_find(s, pat, from + 1)
    }
}

/// `spec_find` returns the leftmost match at or after `from`, and `None`
/// exactly when there is none.
pub proof fn lemma_find_props(s: Seq<char>, pat: Seq<char>, from: int)
    requires
        0 <= from,
    ensures
        match spec_find(s, pat, from) {
            Some(k) => {
                &&& from <= k
                &&& match_at(s, pat, k)
                &&& forall|j: int| from <= j < k ==> !match_at(s, pat, j)
            },
            None => forall|j: int| from <= j ==> !match_at(s, pat, j),
        },
    decreases s.len() - from,
{
    if from + pat.len() > s.len() {
        assert forall|j: int| from <= j implies !match_at(s, pat, j) by {
            assert(j + pat.len() > s.len());
        }
    } else if match_at(s, pat, from) {
    } else {
        lemma_find_props(s, pat, from + 1);
    }
}

/// Whether `pat` occurs at index `i` of `s`.
pub fn is_match(s: &Vec<char>, pat: &Vec<char>, i: usize) -> (r: bool)
    ensures
        r == match_at(s@, pat@, i as int),
{
    let slen = s.len();
    let plen = pat.len();
    if plen > slen || i > slen - plen {
        return false;
    }
    let mut k: usize = 0;
    while k < plen
        invariant
            slen == s@.len(),
            plen == pat@.len(),
            i + plen <= slen,
            k <= plen,
            forall|t: int| 0 <= t < k ==> s@[i + t] == #[trigger] pat@[t],
        decreases plen - k,
    {
        if s[i + k] != pat[k] {
            assert(!match_at(s@, pat@, i as int));
            return false;
        }
        k += 1;
    }
    true
}

/// The leftmost occurrence of `pat` in `s` at or after index `from`.
pub fn find_in(s: &Vec<char>, pat: &Vec<char>, from: usize) -> (r: Option<usize>)
    ensures
        match r {
            Some(k) => from <= k && spec_find(s@, pat@, from as int) == Some(k as int),
            None => spec_find(s@, pat@, from as int) is None,
        },
{
    let slen = s.len();
    let plen = pat.len();
    if plen > slen || from > slen - plen {
        proof {
            lemma_find_none_past_end(s@, pat@, from as int);
        }
        return None;
    }
    let mut i: usize = from;
    loop
        invariant
            slen == s@.len(),
            plen == pat@.len(),
            from <= i,
            i <= slen,
            plen <= slen,
            spec_find(s@, pat@, from as int) == spec_find(s@, pat@, i as int),
        decreases slen - i,
    {
        if i > slen - plen {
            return None;
        }
        if is_match(s, pat, i) {
            return Some(i);
        }
        i += 1;
    }
}

/// Past the last possible start, `spec_find` yields nothing.
proof fn lemma_find_none_past_end(s: Seq<char>, pat: Seq<char>, from: int)
    requires
        from + pat.len() > s.len() || from < 0,
    ensures
        spec_find(s, pat, from) is None,
{
}

/// Equality of a character vector with a string.
pub fn chars_eq_str(v: &Vec<char>, s: &str) -> (r: bool)
    ensures
        r == (v@ == s@),
{
    let n = s.unicode_len();
    if v.len() != n {
        return false;
    }
    let mut i: usize = 0;
    while i < n
        invariant
            i <= n,
            n == s@.len(),
            v@.len() == n,
            forall|t: int| 0 <= t < i ==> v@[t] == #[trigger] s@[t],
        decreases n - i,
    {
        if v[i] != s.get_char(i) {
            return false;
        }
        i += 1;
    }
    assert(v@ =~= s@);
    true
}

/// Equality of two strings by their character sequences.
pub fn str_eq(a: &str, b: &str) -> (r: bool)
    ensures
        r == (a@ == b@),
{
    let av = to_chars(a);
    chars_eq_str(&av, b)
}

/// Whether `c` occurs in `v`.
pub fn contains_char(v: &Vec<char>, c: char) -> (r: bool)
    ensures
        r == v@.contains(c),
{
    let mut i: usize = 0;
    while i < v.len()
        invariant
            i <= v@.len(),
            forall|t: int| 0 <= t < i ==> v@[t] != c,
        decreases v@.len() - i,
    {
        if v[i] == c {
            return true;
        }
        i += 1;
    }
    assert(!v@.contains(c));
    false
}

/// The characters of `v` from `from` (inclusive) to `to` (exclusive).
pub fn subvec(v: &Vec<char>, from: usize, to: usize) -> (r: Vec<char>)
    requires
        from <= to <= v@.len(),
    ensures
        r@ == v@.subrange(from as int, to as int),
{
    let mut out: Vec<char> = Vec::new();
    let mut i: usize = from;
    while i < to
        invariant
            from <= i <= to <= v@.len(),
            out@ == v@.subrange(from as int, i as int),
        decreases to - i,
    {
        out.push(v[i]);
        assert(out@ =~= v@.subrange(from as int, i + 1));
        i += 1;
    }
    out
}

/// Relies on `String::push`: appends the one character to the string.
pub assume_specification[ String::push ](s: &mut String, c: char)
    ensures
        final(s)@ == old(s)@.push(c),
;

/// A string holding exactly the characters of `v`.
pub fn chars_to_string(v: &Vec<char>) -> (r: String)
    ensures
        r@ == v@,
{
    let mut out = String::new();
    let mut i: usize = 0;
    while i < v.len()
        invariant
            i <= v@.len(),
            out@ == v@.subrange(0, i as int),
        decreases v@.len() - i,
    {
        out.push(v[i]);
        assert(out@ =~= v@.subrange(0, i + 1));
        i += 1;
    }
    assert(out@ =~= v@);
    out
}

/// ASCII lowercasing of one character; all others pass through.
pub open spec fn ascii_lower_char(c: char) -> char {
    if 65 <= c as u32 && c as u32 <= 90 {
        ((c as u32 + 32) as u8) as char
    } else {
        c
    }
}

/// The sequence `s` lowercased character by character (ASCII range only).
pub open spec fn lower_seq(s: Seq<char>) -> Seq<char> {
    s.map_values(|c: char| ascii_lower_char(c))
}

/// Exec ASCII lowercasing of one character.
pub fn to_lower_char(c: char) -> (r: char)
    ensures
        r == ascii_lower_char(c),
{
    let u = c as u32;
    if 65 <= u && u <= 90 {
        ((u + 32) as u8) as char
    } else {
        c
    }
}

/// Exec ASCII lowercasing of a character vector.
pub fn lower_chars(v: &Vec<char>) -> (r: Vec<char>)
    ensures
        r@ == lower_seq(v@),
{
    let mut out: Vec<char> = Vec::new();
    let mut i: usize = 0;
    while i < v.len()
        invariant
            i <= v@.len(),
            out@.len() == i,
            forall|t: int| 0 <= t < i ==> out@[t] == ascii_lower_char(#[trigger] v@[t]),
        decreases v@.len() - i,
    {
        out.push(to_lower_char(v[i]));
        i += 1;
    }
    assert(out@ =~= lower_seq(v@));
    out
}

} // verus!
