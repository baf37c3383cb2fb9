//! The one source of chance in the engine.

use rand::Rng;
use vstd::prelude::*;

verus! {

/// Draws a number from `0` up to but not including `bound`.
///
/// Calls `rand::Rng::gen_range` on the generator that `rand::thread_rng` hands out, with
/// the half-open range `0..bound`. `gen_range` panics on an empty range, so `bound` must
/// be positive. It samples uniformly from the range; the contract claims only what
/// holds of every draw, that the number lies in the range. `thread_rng` itself panics
/// when the operating system gives it no seed, which no argument can rule out.
#[verifier::external_body]
pub(crate) fn random_below(bound: usize) -> (drawn: usize)
    requires
        bound > 0,
    ensures
        drawn < bound,
{
    rand::thread_rng().gen_range(0..bound)
}

} // verus!
