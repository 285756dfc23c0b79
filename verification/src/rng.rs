//! Trusted boundary to the `rand` crate, used to seed the quad grid.

use vstd::prelude::*;

use rand::Rng;
use rand::SeedableRng;

verus! {

#[verifier::external_type_specification]
#[verifier::external_body]
pub struct ExStdRng(rand::rngs::StdRng);

/// Relies on rand's `StdRng::seed_from_u64`: builds a generator from a
/// 64-bit seed.  Nothing is promised of the stream it produces.
#[verifier::external_body]
pub fn rng_from_seed(seed: u64) -> rand::rngs::StdRng {
    rand::rngs::StdRng::seed_from_u64(seed)
}

/// Relies on rand's `Rng::gen_range` on an inclusive range: the result lies
/// within the bounds, and the call panics only on an empty range, which the
/// precondition excludes.
#[verifier::external_body]
pub fn rand_range_u32(rng: &mut rand::rngs::StdRng, lo: u32, hi: u32) -> (r: u32)
    requires
        lo <= hi,
    ensures
        lo <= r <= hi,
{
    rng.gen_range(lo..=hi)
}

} // verus!
