//! A seeded random source for the galaxy initializer.
//!
//! The generator itself comes from the `rand` crate (`StdRng`, a ChaCha
//! block cipher with twelve rounds). Seeded from a fixed 64-bit value it is
//! a deterministic word source: the k-th 32-bit word it yields is a pure
//! function of the seed and of k alone. That stream is given the name
//! [`rng_stream`], and the wrapper below tracks, in ghost state, which seed
//! built the generator and how many words were drawn.

use vstd::prelude::*;
use rand::rngs::StdRng;
use rand::SeedableRng;
use rand::rand_core::Rng as RngCoreTrait;

verus! {

#[verifier::external_type_specification]
#[verifier::external_body]
pub struct ExStdRng(StdRng);

/// The k-th 32-bit word drawn from `rand`'s `StdRng` seeded with `seed`
/// through `SeedableRng::seed_from_u64`. The generator is a fixed cipher of
/// the seed material, so the word depends on the seed and the position
/// alone.
pub uninterp spec fn rng_stream(seed: u64, k: nat) -> u32;

/// A `StdRng` together with the seed it was built from and the number of
/// words drawn so far.
pub struct SeedRng {
    inner: StdRng,
    seed: Ghost<u64>,
    drawn: Ghost<nat>,
}

/// Relies on `rand_core::SeedableRng::seed_from_u64`: builds the generator
/// deterministically from the 64-bit seed.
#[verifier::external_body]
fn make_std_rng(seed: u64) -> (r: StdRng)
{
    StdRng::seed_from_u64(seed)
}

impl SeedRng {
    /// The seed this generator was built from.
    pub closed spec fn seed(&self) -> u64 {
        self.seed@
    }

    /// How many words have been drawn so far.
    pub closed spec fn drawn(&self) -> nat {
        self.drawn@
    }

    /// A fresh generator seeded with `seed`; no words drawn yet.
    pub fn new(seed: u64) -> (r: SeedRng)
        ensures
            r.seed() == seed,
            r.drawn() == 0,
    {
        SeedRng { inner: make_std_rng(seed), seed: Ghost(seed), drawn: Ghost(0) }
    }

    /// Relies on `rand_core::Rng::next_u32` on `StdRng`: yields the next
    /// word of the deterministic stream of the seed this generator was
    /// built from.
    #[verifier::external_body]
    pub fn next_u32(&mut self) -> (r: u32)
        ensures
            final(self).seed() == old(self).seed(),
            final(self).drawn() == old(self).drawn() + 1,
            r == rng_stream(old(self).seed(), old(self).drawn()),
    {
        self.inner.next_u32()
    }
}

} // verus!
