//! Comparing text.

use vstd::prelude::*;

verus! {

/// Whether two string slices hold the same characters.
///
/// This is `==` on `str`, which compares the slices byte by byte; equal
/// bytes are equal characters and the other way round.
#[verifier::external_body]
pub(crate) fn str_eq(a: &str, b: &str) -> (same: bool)
    ensures
        same == (a@ == b@),
{
    a == b
}

} // verus!
