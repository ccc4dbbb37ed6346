//! Seeded random source: a reproducible sequence of 64-bit integers.
//!
//! The generator is `rand_pcg`'s `Pcg64Mcg`, seeded through rand_core's
//! `SeedableRng::seed_from_u64`. Both are documented as portable and
//! value-stable: an identical seed yields an identical sequence on every
//! platform and run. The sequence is therefore named by the uninterpreted
//! [`pcg_stream`], and everything the engine derives from it is a pure
//! function of the seed.

use rand::Rng;
use rand::SeedableRng;
use vstd::prelude::*;

verus! {

#[verifier::external_type_specification]
#[verifier::external_body]
pub struct ExPcg64Mcg(rand_pcg::Pcg64Mcg);

/// The value at position `i` (0-based) of the 64-bit output sequence of a
/// `rand_pcg::Pcg64Mcg` generator seeded with `seed` through `seed_from_u64`.
pub uninterp spec fn pcg_stream(seed: u64, i: int) -> u64;

/// A `Pcg64Mcg` generator together with the seed it was built from and the
/// number of values it has handed out so far, so that contracts can say which
/// position of the seed's output sequence comes next.
pub struct SeededRng {
    rng: rand_pcg::Pcg64Mcg,
    seed: Ghost<u64>,
    drawn: Ghost<int>,
}

impl SeededRng {
    /// The seed this generator was built from.
    pub closed spec fn spec_seed(self) -> u64 {
        self.seed@
    }

    /// How many values the generator has handed out since seeding.
    pub closed spec fn spec_drawn(self) -> int {
        self.drawn@
    }

    /// Build the rng. Uses a fast but portable and reproducible rng.
    ///
    /// Relies on `rand_pcg::Pcg64Mcg::seed_from_u64` (rand_core's
    /// `SeedableRng`): seeding is a pure function of the 64-bit seed, and the
    /// crate documents it as value-stable.
    #[verifier::external_body]
    pub fn build_rng(seed: u64) -> (r: SeededRng)
        ensures
            r.spec_seed() == seed,
            r.spec_drawn() == 0,
    {
        SeededRng {
            rng: rand_pcg::Pcg64Mcg::seed_from_u64(seed),
            seed: Ghost(seed),
            drawn: Ghost(0),
        }
    }

    /// Draw the next 64-bit value of the sequence.
    ///
    /// Relies on `rand_pcg::Pcg64Mcg::next_u64` (rand_core's `Rng`): the
    /// output sequence is a pure, portable function of the seeding, so the
    /// value drawn is determined by the seed and by how many values were
    /// drawn before it.
    #[verifier::external_body]
    pub fn next(&mut self) -> (r: u64)
        ensures
            final(self).spec_seed() == old(self).spec_seed(),
            final(self).spec_drawn() == old(self).spec_drawn() + 1,
            r == pcg_stream(old(self).spec_seed(), old(self).spec_drawn()),
    {
        self.rng.next_u64()
    }
}

} // verus!
