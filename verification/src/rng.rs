//! Per-worker random number generation.
//!
//! Each worker owns a private generator seeded from a root seed, so a render
//! is a deterministic function of that seed. The generator is rand's
//! `StdRng`; the draws are modelled as the named stream `stream_of`, indexed
//! by how many draws have been made.
use crate::fbits::{f64_of_int, int_to_bits, mul_bits, mul_of, SCALE53_BITS};
use vstd::prelude::*;

verus! {

/// The deterministic stream of 64-bit draws that rand's `StdRng` yields for
/// a seed; `index` counts the draws made before this one.
pub uninterp spec fn stream_of(seed: u64, index: nat) -> u64;

/// A unit float in [0, 1), made from one stream draw the way rand's
/// `Standard` distribution makes a double: the top 53 bits, scaled by 2^-53.
pub open spec fn unit_float_of(seed: u64, index: nat) -> u64 {
    mul_of(SCALE53_BITS, f64_of_int(stream_of(seed, index) >> 11))
}

/// Relies on rand's `SeedableRng::seed_from_u64` for `StdRng`: builds the
/// generator state for the given seed.
#[verifier::external_body]
fn seed_std_rng(seed: u64) -> rand::rngs::StdRng {
    rand::SeedableRng::seed_from_u64(seed)
}

#[verifier::external_type_specification]
#[verifier::external_body]
pub struct ExStdRng(rand::rngs::StdRng);

/// A worker's private generator: rand's `StdRng` for a recorded seed,
/// together with a ghost count of the draws made so far.
pub struct WorkerRng {
    seed: u64,
    index: Ghost<nat>,
    inner: rand::rngs::StdRng,
}

impl WorkerRng {
    /// The seed this generator was built from.
    pub closed spec fn seed(self) -> u64 {
        self.seed
    }

    /// How many draws have been made so far.
    pub closed spec fn draws(self) -> nat {
        self.index@
    }

    pub fn new(seed: u64) -> (r: WorkerRng)
        ensures
            r.seed() == seed,
            r.draws() == 0,
    {
        WorkerRng { seed, index: Ghost(0), inner: seed_std_rng(seed) }
    }

    /// Relies on rand's `RngCore::next_u64` for `StdRng`: the stream of
    /// draws is a deterministic function of the seed, the same on every
    /// machine, so this draw is the stream's value at the current index.
    #[verifier::external_body]
    pub fn draw(&mut self) -> (r: u64)
        ensures
            final(self).seed() == old(self).seed(),
            final(self).draws() == old(self).draws() + 1,
            r == stream_of(old(self).seed(), old(self).draws()),
    {
        rand::RngCore::next_u64(&mut self.inner)
    }

    /// A uniform double in [0, 1): one draw, converted as rand's `Standard`
    /// distribution converts it.
    pub fn unit_float(&mut self) -> (r: u64)
        ensures
            final(self).seed() == old(self).seed(),
            final(self).draws() == old(self).draws() + 1,
            r == unit_float_of(old(self).seed(), old(self).draws()),
    {
        let x = self.draw();
        let f = int_to_bits(x >> 11);
        mul_bits(SCALE53_BITS, f)
    }
}

} // verus!
