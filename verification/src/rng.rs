//! The random source of the simulation.
//!
//! Both players draw from their own `rand_pcg::Pcg64Mcg` stream. That
//! generator is a pure state machine: seeding and every draw are functions of
//! the seed and of the generator state alone, on every machine (rand_pcg
//! documents the PCG family as deterministic and portable). The spec names
//! below stand for those functions; nothing else is assumed of the values
//! drawn beyond their documented range.

use vstd::prelude::*;
use rand::Rng;

verus! {

#[verifier::external_type_specification]
#[verifier::external_body]
pub struct ExMcg128Xsl64(rand_pcg::Mcg128Xsl64);

/// The mathematical state of a generator value.
pub uninterp spec fn rng_state(r: rand_pcg::Pcg64Mcg) -> int;

/// The state that `Pcg64Mcg::from_seed` builds from a 16-byte seed.
pub uninterp spec fn seed_state(seed: Seq<u8>) -> int;

/// What `rand::Rng::gen_range(0, bound)` yields on a generator in a given
/// state: the value drawn and the state left behind.
pub uninterp spec fn uniform_draw(state: int, bound: int) -> (int, int);

/// What `rand::Rng::gen_ratio(num, den)` yields on a generator in a given
/// state: the boolean drawn and the state left behind.
pub uninterp spec fn ratio_draw(state: int, num: int, den: int) -> (bool, int);

/// Relies on `rand_pcg::Pcg64Mcg::from_seed`: the generator state is read
/// from the seed bytes alone.
#[verifier::external_body]
pub fn rng_from_seed(seed: [u8; 16]) -> (r: rand_pcg::Pcg64Mcg)
    ensures
        rng_state(r) == seed_state(seed@),
{
    <rand_pcg::Pcg64Mcg as rand::SeedableRng>::from_seed(seed)
}

/// Relies on `rand::Rng::gen_range`: the result lies in `[0, bound)` and,
/// on a PCG generator, is a function of the generator state and the bound.
/// `gen_range` panics on an empty range, so the bound must be positive.
#[verifier::external_body]
pub fn draw_below(rng: &mut rand_pcg::Pcg64Mcg, bound: usize) -> (v: usize)
    requires
        1 <= bound,
    ensures
        v < bound,
        v as int == uniform_draw(rng_state(*old(rng)), bound as int).0,
        rng_state(*final(rng)) == uniform_draw(rng_state(*old(rng)), bound as int).1,
{
    rng.gen_range(0, bound)
}

/// Relies on `rand::Rng::gen_ratio`: the result is `true` with probability
/// `num/den` and, on a PCG generator, is a function of the generator state
/// and the two arguments. `gen_ratio` panics when `den == 0` or `num > den`.
#[verifier::external_body]
pub fn draw_ratio(rng: &mut rand_pcg::Pcg64Mcg, num: u32, den: u32) -> (b: bool)
    requires
        1 <= den,
        num <= den,
    ensures
        b == ratio_draw(rng_state(*old(rng)), num as int, den as int).0,
        rng_state(*final(rng)) == ratio_draw(rng_state(*old(rng)), num as int, den as int).1,
{
    rng.gen_ratio(num, den)
}

} // verus!
