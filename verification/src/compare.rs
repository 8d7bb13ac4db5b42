//! Exact string comparison.
//!
//! The validating deserializer compares the observed string with the bound
//! literal character for character: case-sensitive, with no trimming and no
//! normalization. The comparison is written out and proved here rather than
//! delegated, because byte-exact equality is the correctness-sensitive core
//! of the whole validation.

use vstd::prelude::*;
use vstd::string::StrSliceExecFns;

verus! {

/// Whether two strings are exactly equal: same length, same characters, in
/// order, with no normalization of any kind.
pub fn str_eq(a: &str, b: &str) -> (r: bool)
    ensures
        r == (a@ == b@),
{
    let a_len = a.unicode_len();
    let b_len = b.unicode_len();
    if a_len != b_len {
        return false;
    }
    let mut i: usize = 0;
    while i < a_len
        invariant
            i <= a_len,
            a_len as nat == a@.len(),
            b_len as nat == b@.len(),
            a_len == b_len,
            forall|j: int| 0 <= j < i ==> a@[j] == b@[j],
        decreases a_len - i,
    {
        if a.get_char(i) != b.get_char(i) {
            return false;
        }
        i += 1;
    }
    proof {
        assert(a@ =~= b@);
    }
    true
}

} // verus!
