//! Timing-safe comparison of byte strings.

use vstd::prelude::*;

verus! {

/// Relies on `ring::constant_time::verify_slices_are_equal`: `Ok` exactly
/// when both slices have the same length and the same bytes, compared in time
/// that does not depend on where they differ.
#[verifier::external_body]
#[allow(deprecated)]
pub(crate) fn equal_in_constant_time(a: &[u8], b: &[u8]) -> (r: bool)
    ensures
        r == (a@ == b@),
{
    ring::constant_time::verify_slices_are_equal(a, b).is_ok()
}

} // verus!
