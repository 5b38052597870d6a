//! The randomness the spawner draws velocities from, behind trusted wrappers
//! around the `rand` crate.

use vstd::prelude::*;

verus! {

/// The thread-local generator of the `rand` crate, opaque to the verifier.
#[verifier::external_type_specification]
#[verifier::external_body]
pub struct ExThreadRng(rand::rngs::ThreadRng);

/// Relies on `rand::thread_rng`: hands out the lazily seeded generator of the
/// current thread. Nothing is promised of it: every sample drawn from it is
/// constrained only by the sampling call's own contract.
#[verifier::external_body]
pub(crate) fn fresh_rng() -> rand::rngs::ThreadRng {
    rand::thread_rng()
}

/// Relies on `rand::Rng::gen_range` on an inclusive range: the sample lies
/// within the closed range. The call panics on an empty range, which the
/// precondition rules out; which value comes back is promised nowhere.
#[verifier::external_body]
pub(crate) fn sample_in_range(rng: &mut rand::rngs::ThreadRng, lo: i64, hi: i64) -> (r: i64)
    requires
        lo <= hi,
    ensures
        lo <= r <= hi,
{
    rand::Rng::gen_range(rng, lo..=hi)
}

} // verus!
