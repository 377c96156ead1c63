//! The source of chance that the computer draws its moves from.

use vstd::prelude::*;
use rand::Rng;

verus! {

/// A number below `bound`, drawn by `rand::Rng::gen_range` on the generator
/// that `rand::thread_rng` hands out, over the half-open range from 0 to
/// `bound`.
///
/// Not proved: that the number lies in that range. Which number comes is left
/// open: two calls may differ.
#[verifier::external_body]
pub(crate) fn random_below(bound: u32) -> (drawn: u32)
    requires
        bound > 0,
    ensures
        drawn < bound,
{
    rand::thread_rng().gen_range(0..bound)
}

} // verus!
