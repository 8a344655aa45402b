//! Trusted boundary to the `rand` crate: the only source of randomness in
//! the library. Nothing is promised of a drawn value beyond its range; every
//! decision taken on a draw is made by verified code that holds for every
//! possible outcome.

use vstd::prelude::*;

verus! {

/// `rand`'s standard seedable generator, declared so that it can stand in
/// signatures and fields. Its state is opaque to verification.
#[verifier::external_type_specification]
#[verifier::external_body]
pub struct ExStdRng(rand::rngs::StdRng);

/// Relies on `rand::SeedableRng::seed_from_u64`: builds a generator whose
/// stream of draws is a deterministic function of the seed.
#[verifier::external_body]
pub fn rng_from_seed(seed: u64) -> (rng: rand::rngs::StdRng) {
    <rand::rngs::StdRng as rand::SeedableRng>::seed_from_u64(seed)
}

/// Relies on `rand::RngExt::random_range` over `0..n`: the draw is uniform
/// over that range, so in particular it is less than `n`. The call panics on
/// an empty range, hence the bound below.
#[verifier::external_body]
pub fn rand_below(rng: &mut rand::rngs::StdRng, n: u64) -> (r: u64)
    requires
        n >= 1,
    ensures
        r < n,
{
    rand::RngExt::random_range(rng, 0..n)
}

} // verus!
