//! Strings, as far as the checker needs them.

use vstd::prelude::*;

verus! {

/// Whether two string slices hold the same characters.
///
/// Trusted, not proved: the body calls `PartialEq::eq` of `str` (written
/// `==`), and the contract states what the standard library documents of
/// it, that two slices are equal exactly when they hold the same sequence of
/// characters.
#[verifier::external_body]
pub(crate) fn str_eq(left: &str, right: &str) -> (same: bool)
    ensures
        same == (left@ == right@),
{
    left == right
}

} // verus!
