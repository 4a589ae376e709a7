//! Names of structured-output schemas, taken from Rust type names.

use vstd::prelude::*;

use crate::text::{chars_of, slice_chars, string_of};

verus! {

/// Whether `s` holds `::` at position `i`.
pub open spec fn is_path_separator_at(s: Seq<char>, i: int) -> bool {
    0 <= i && i + 2 <= s.len() && s[i] == ':' && s[i + 1] == ':'
}

/// The text after the rightmost `::` that starts at or before `j`, or all of
/// `s` when there is none.
pub open spec fn segment_after_separator(s: Seq<char>, j: int) -> Seq<char>
    decreases j + 1,
{
    if j < 0 {
        s
    } else if is_path_separator_at(s, j) {
        s.skip(j + 2)
    } else {
        segment_after_separator(s, j - 1)
    }
}

/// The last segment of a path: the text after its rightmost `::`, or the
/// whole path when it has none (what `rsplit("::").next()` gives).
pub open spec fn last_path_segment(s: Seq<char>) -> Seq<char> {
    segment_after_separator(s, s.len() - 2)
}

/// The schema name for a type whose full path is `full_name`: its last path
/// segment.
pub fn schema_name_of(full_name: &str) -> (r: String)
    ensures
        r@ == last_path_segment(full_name@),
{
    let s = chars_of(full_name);
    let n = s.len();
    if n < 2 {
        return string_of(s.as_slice());
    }
    let mut j: usize = n - 1;
    while j > 0
        invariant
            n == s@.len(),
            s@ == full_name@,
            n >= 2,
            j <= n - 1,
            segment_after_separator(s@, n - 2) == segment_after_separator(s@, j - 1),
        decreases j,
    {
        let k = j - 1;
        if s[k] == ':' && s[k + 1] == ':' {
            assert(is_path_separator_at(s@, k as int));
            assert(segment_after_separator(s@, k as int) == s@.skip(k + 2));
            let rest = slice_chars(s.as_slice(), k + 2, n);
            assert(rest@ =~= s@.skip(k + 2));
            return string_of(rest.as_slice());
        }
        j = k;
    }
    string_of(s.as_slice())
}

} // verus!
