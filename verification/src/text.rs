//! Exact string comparison.
//!
//! Flag verification and interaction routing both compare strings verbatim:
//! case-sensitive, no trimming. A submission that differs from a stored flag
//! by a single character of whitespace does not match.

use vstd::prelude::*;

verus! {

/// Returns true iff the two strings hold exactly the same characters.
pub fn str_eq(a: &str, b: &str) -> (r: bool)
    ensures
        r == (a@ == b@),
{
    let sa: String = a.to_owned();
    let sb: String = b.to_owned();
    sa == sb
}

} // verus!
