//! Randomness, drawn from the thread-local generator.

use vstd::prelude::*;

verus! {

/// A number drawn uniformly from `lo..=hi`.
///
/// Wraps `rand::Rng::random_range` on `rand::rng()`, the thread-local
/// generator, with an inclusive range. The claim is what rand documents
/// and its source shows: the draw lies in the range, which must not be
/// empty (an empty range panics, so `lo <= hi` is required). Which number
/// comes out is left open.
#[verifier::external_body]
pub(crate) fn random_u32_in(lo: u32, hi: u32) -> (out: u32)
    requires
        lo <= hi,
    ensures
        lo <= out <= hi,
{
    rand::Rng::random_range(&mut rand::rng(), lo..=hi)
}

} // verus!
