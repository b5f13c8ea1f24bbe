//! Small verified helpers over character sequences.

use vstd::prelude::*;

verus! {

/// Whether `t` is a suffix of `s`.
pub open spec fn ends_with(s: Seq<char>, t: Seq<char>) -> bool {
    s.len() >= t.len() && s.subrange(s.len() - t.len(), s.len() as int) == t
}

/// Compare two string slices by their character sequences.
pub fn str_eq(a: &str, b: &str) -> (r: bool)
    ensures
        r == (a@ == b@),
{
    let x: String = a.to_owned();
    let y: String = b.to_owned();
    x == y
}

/// Check whether `s` ends with `suffix`.
pub fn str_ends_with(s: &str, suffix: &str) -> (r: bool)
    ensures
        r == ends_with(s@, suffix@),
{
    let n = s.unicode_len();
    let m = suffix.unicode_len();
    if n < m {
        return false;
    }
    let tail = s.substring_char(n - m, n);
    str_eq(tail, suffix)
}

} // verus!
