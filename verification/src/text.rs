//! Comparison of texts by their characters.
use vstd::prelude::*;
use vstd::string::StringExecFns;

verus! {

/// Whether `a` and `b` hold the same characters.
pub fn same_text(a: &str, b: &str) -> (same: bool)
    ensures
        same == (a@ == b@),
{
    let first = String::from_str(a);
    let second = String::from_str(b);
    first == second
}

} // verus!
