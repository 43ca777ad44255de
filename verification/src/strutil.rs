//! String helpers used across the crate.

use vstd::prelude::*;

verus! {

/// True exactly when the two slices hold the same characters.
pub fn str_eq(a: &str, b: &str) -> (r: bool)
    ensures
        r == (a@ == b@),
{
    let sa = a.to_owned();
    let sb = b.to_owned();
    sa == sb
}

} // verus!
