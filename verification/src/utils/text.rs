use vstd::prelude::*;

verus! {

/// Tells whether two string slices hold the same characters in the same
/// order.
pub fn same_text(a: &str, b: &str) -> (same: bool)
    ensures
        same == (a@ == b@),
{
    let left = a.to_owned();
    let right = b.to_owned();
    left == right
}

} // verus!
