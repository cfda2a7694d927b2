//! Comparing texts.
use vstd::prelude::*;

verus! {

/// Whether two strings hold the same characters.
pub(crate) fn text_eq(a: &str, b: &str) -> (r: bool)
    ensures
        r == (a@ == b@),
{
    a.to_owned() == b.to_owned()
}

} // verus!
