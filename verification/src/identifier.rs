//! The identifier normalizer: title string to URL/tag-safe slug.
//!
//! Every character that is neither a letter, a decimal digit nor whitespace
//! (all Unicode-aware) is stripped; each maximal run of whitespace becomes a
//! single underscore. The result therefore never holds a character outside
//! letters, digits and the underscore, and never two underscores in a row.

use vstd::prelude::*;
use crate::chars::char_is_alnum;
use crate::chars::char_is_space;

verus! {

/// Normalization of the remaining input `s`, with `in_ws` recording whether
/// a whitespace run is open to the left. A pending run is flushed as one
/// underscore before the next kept character, or at the end of the input.
pub open spec fn norm_st(s: Seq<char>, in_ws: bool) -> Seq<char>
    decreases s.len(),
{
    if s.len() == 0 {
        if in_ws {
            seq!['_']
        } else {
            Seq::empty()
        }
    } else {
        let c = s[0];
        if char_is_alnum(c) {
            (if in_ws {
                seq!['_', c]
            } else {
                seq![c]
            }) + norm_st(s.skip(1), false)
        } else if char_is_space(c) {
            norm_st(s.skip(1), true)
        } else {
            norm_st(s.skip(1), in_ws)
        }
    }
}

/// The slug for a title.
pub open spec fn spec_normalize(s: Seq<char>) -> Seq<char> {
    norm_st(s, false)
}

/// Every character of a slug is alphanumeric or an underscore.
pub proof fn lemma_norm_chars(s: Seq<char>, in_ws: bool)
    ensures
        forall|j: int|
            0 <= j < norm_st(s, in_ws).len() ==> char_is_alnum(#[trigger] norm_st(s, in_ws)[j])
                || norm_st(s, in_ws)[j] == '_',
    decreases s.len(),
{
    if s.len() == 0 {
    } else {
        let c = s[0];
        if char_is_alnum(c) {
            lemma_norm_chars(s.skip(1), false);
            let pre = if in_ws {
                seq!['_', c]
            } else {
                seq![c]
            };
            let tail = norm_st(s.skip(1), false);
            assert forall|j: int| 0 <= j < norm_st(s, in_ws).len() implies char_is_alnum(
                #[trigger] norm_st(s, in_ws)[j],
            ) || norm_st(s, in_ws)[j] == '_' by {
                if j >= pre.len() {
                    assert(norm_st(s, in_ws)[j] == tail[j - pre.len()]);
                }
            }
        } else if char_is_space(c) {
            lemma_norm_chars(s.skip(1), true);
            assert forall|j: int| 0 <= j < norm_st(s, in_ws).len() implies char_is_alnum(
                #[trigger] norm_st(s, in_ws)[j],
            ) || norm_st(s, in_ws)[j] == '_' by {
                assert(norm_st(s, in_ws)[j] == norm_st(s.skip(1), true)[j]);
            }
        } else {
            lemma_norm_chars(s.skip(1), in_ws);
            assert forall|j: int| 0 <= j < norm_st(s, in_ws).len() implies char_is_alnum(
                #[trigger] norm_st(s, in_ws)[j],
            ) || norm_st(s, in_ws)[j] == '_' by {
                assert(norm_st(s, in_ws)[j] == norm_st(s.skip(1), in_ws)[j]);
            }
        }
    }
}

/// The normalizer is idempotent on every title whose slug holds no
/// underscore: normalizing such a slug again changes nothing. A slug with
/// an underscore is the one exception, since a second pass strips the
/// underscore itself.
pub proof fn lemma_normalize_idempotent(s: Seq<char>)
    requires
        forall|j: int| 0 <= j < spec_normalize(s).len() ==> #[trigger] spec_normalize(s)[j] != '_',
    ensures
        spec_normalize(spec_normalize(s)) == spec_normalize(s),
{
    lemma_norm_chars(s, false);
    assert forall|j: int| 0 <= j < spec_normalize(s).len() implies char_is_alnum(
        #[trigger] spec_normalize(s)[j],
    ) by {
        assert(spec_normalize(s)[j] != '_');
    }
    lemma_norm_fixed(spec_normalize(s));
}

/// A sequence whose characters are all alphanumeric normalizes to itself.
proof fn lemma_norm_fixed(t: Seq<char>)
    requires
        forall|j: int| 0 <= j < t.len() ==> char_is_alnum(#[trigger] t[j]),
    ensures
        norm_st(t, false) == t,
    decreases t.len(),
{
    if t.len() == 0 {
        assert(norm_st(t, false) =~= t);
    } else {
        lemma_norm_fixed(t.skip(1));
        assert(norm_st(t, false) =~= t);
    }
}

/// Normalizes a title into a slug. The last three clauses are the slug
/// laws: the result holds only letters, digits and underscores; it never
/// holds two adjacent underscores; and when it holds no underscore at all,
/// normalizing it again changes nothing.
pub fn make_identifier(name: String) -> (r: String)
    ensures
        r@ == spec_normalize(name@),
        forall|j: int|
            0 <= j < r@.len() ==> char_is_alnum(#[trigger] r@[j]) || r@[j] == '_',
        forall|j: int| 0 <= j && j + 1 < r@.len() ==> !(#[trigger] r@[j] == '_' && r@[j + 1] == '_'),
        (forall|j: int| 0 <= j < r@.len() ==> r@[j] != '_') ==> spec_normalize(r@) == r@,
{
    let chars = crate::strings::to_chars(name.as_str());
    let n = chars.len();
    let mut out = String::new();
    let mut in_ws = false;
    let mut i: usize = 0;
    proof {
        assert(chars@.skip(0) =~= chars@);
        assert(out@ + norm_st(chars@, false) =~= norm_st(chars@, false));
    }
    while i < n
        invariant
            i <= n,
            n == chars@.len(),
            spec_normalize(chars@) == out@ + norm_st(chars@.skip(i as int), in_ws),
            forall|j: int|
                0 <= j < out@.len() ==> char_is_alnum(#[trigger] out@[j]) || out@[j] == '_',
            forall|j: int|
                0 <= j && j + 1 < out@.len() ==> !(#[trigger] out@[j] == '_' && out@[j + 1] == '_'),
            out@.len() > 0 ==> out@[out@.len() - 1] != '_',
        decreases n - i,
    {
        let c = chars[i];
        assert(chars@.skip(i as int)[0] == c);
        assert(chars@.skip(i as int).skip(1) =~= chars@.skip(i + 1));
        if c.is_alphanumeric() {
            if in_ws {
                out.push('_');
            }
            out.push(c);
            in_ws = false;
        } else if c.is_whitespace() {
            in_ws = true;
        }
        i += 1;
    }
    assert(chars@.skip(n as int) =~= Seq::<char>::empty());
    if in_ws {
        out.push('_');
    }
    assert(out@ =~= spec_normalize(chars@));
    proof {
        if forall|j: int| 0 <= j < out@.len() ==> out@[j] != '_' {
            assert forall|j: int| 0 <= j < out@.len() implies char_is_alnum(#[trigger] out@[j]) by {
                assert(out@[j] != '_');
            }
            lemma_norm_fixed(out@);
        }
    }
    out
}

} // verus!
