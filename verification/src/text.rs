//! Text comparison for the tags that the renderer dispatches on.

use vstd::prelude::*;

verus! {

/// `str`'s `==` from the standard library: true exactly when the two strings
/// hold the same characters in the same order.
#[verifier::external_body]
pub(crate) fn same_text(a: &str, b: &str) -> (r: bool)
    ensures
        r == (a@ == b@),
{
    a == b
}

} // verus!
