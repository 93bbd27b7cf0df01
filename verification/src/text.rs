//! What the library assumes of the standard library's strings.

use vstd::prelude::*;

verus! {

/// `str`'s `==`: two string slices are equal exactly if they hold the same
/// characters in the same order.
pub assume_specification[ <str as PartialEq>::eq ](a: &str, b: &str) -> (r: bool)
    ensures
        r == (a@ == b@),
;

} // verus!
