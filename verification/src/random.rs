//! The boundary to the `rand` crate: where the engine draws its numbers.

use rand::rngs::ThreadRng;
use rand::Rng;
use vstd::prelude::*;

verus! {

/// `rand::rngs::ThreadRng`, the handle to the calling thread's generator.
/// Nothing of its state is visible to proofs.
#[verifier::external_type_specification]
#[verifier::external_body]
pub struct ExThreadRng(ThreadRng);

/// Calls `rand::rng()`, which hands out the calling thread's generator.
/// Nothing is claimed of the generator it returns.
#[verifier::external_body]
pub(crate) fn thread_rng() -> ThreadRng {
    rand::rng()
}

/// Calls `Rng::random_range(0..bound)` on the generator. The range is not
/// empty, so the call returns, and what it returns lies in the range. Which
/// number of the range comes out is left open: two calls may differ.
#[verifier::external_body]
pub(crate) fn random_below(rng: &mut ThreadRng, bound: u16) -> (n: u16)
    requires
        bound > 0,
    ensures
        n < bound,
{
    rng.random_range(0..bound)
}

} // verus!
