//! Character classes used by the identifier normalizer.
//!
//! The normalizer is Unicode-aware: it keeps exactly the characters that
//! `char::is_alphanumeric` accepts and treats as separators exactly the
//! characters that `char::is_whitespace` accepts. Both tables are part of
//! the standard library; they are named here and never restated.

use vstd::prelude::*;

verus! {

/// What `char::is_alphanumeric` returns: membership in the Unicode letter
/// and number categories.
pub uninterp spec fn char_is_alnum(c: char) -> bool;

/// What `char::is_whitespace` returns: the Unicode `White_Space` property.
pub uninterp spec fn char_is_space(c: char) -> bool;

/// Relies on `char::is_alphanumeric`. The clause on `'_'` restates the
/// documentation: the underscore is punctuation, neither letter nor number.
pub assume_specification[ char::is_alphanumeric ](c: char) -> (r: bool)
    ensures
        r == char_is_alnum(c),
        c == '_' ==> !r,
;

/// Relies on `char::is_whitespace`.
pub assume_specification[ char::is_whitespace ](c: char) -> (r: bool)
    ensures
        r == char_is_space(c),
;

} // verus!
