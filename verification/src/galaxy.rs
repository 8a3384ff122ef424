//! The galaxy initializer: the deterministic seeding plan for all particles.
//!
//! A reseed assigns every particle to one of two counter-rotating discs and
//! draws three words from the seeded random source: one for its radius
//! (square-root transformed, for an area-uniform disc), one for its angle,
//! and one for the speed noise on its tangential velocity. Position,
//! velocity and colour of a particle are fixed elementwise by its record:
//! the numeric disc transform itself is floating-point work done by the
//! rendering side on these integer draws, so one record per particle is
//! what the library produces and re-uploads.

use vstd::prelude::*;
use crate::rng::{rng_stream, SeedRng};

verus! {

/// Which of the two discs a particle belongs to: the first half of the
/// particles form the disc offset to negative x, the rest the disc offset
/// to positive x; the two rotate in opposite directions and use distinct
/// colour gradients.
#[derive(Clone, Copy, Debug, PartialEq, Eq, Structural)]
pub enum Disc {
    Left,
    Right,
}

/// The seeding record of one particle: its disc and the three random words
/// its position, velocity and colour derive from.
#[derive(Clone, Copy, Debug, PartialEq, Eq, Structural)]
pub struct Spawn {
    pub disc: Disc,
    /// Word behind the square-root-transformed uniform radius.
    pub radius_draw: u32,
    /// Word behind the uniform angle.
    pub angle_draw: u32,
    /// Word behind the tangential-speed noise.
    pub speed_draw: u32,
}

/// The record of particle `i` out of `n` under `seed`: the first `n / 2`
/// particles form the left disc, the remaining `n - n / 2` the right one,
/// and particle `i` consumes stream words `3i`, `3i + 1` and `3i + 2`.
pub open spec fn spec_spawn_at(seed: u64, n: u32, i: int) -> Spawn {
    Spawn {
        disc: if i < n as int / 2 {
            Disc::Left
        } else {
            Disc::Right
        },
        radius_draw: rng_stream(seed, (3 * i) as nat),
        angle_draw: rng_stream(seed, (3 * i + 1) as nat),
        speed_draw: rng_stream(seed, (3 * i + 2) as nat),
    }
}

/// The full seeding plan: one record per particle, in particle order.
pub open spec fn spec_galaxy(seed: u64, n: u32) -> Seq<Spawn> {
    Seq::new(n as nat, |i: int| spec_spawn_at(seed, n, i))
}

/// Reseed all `n` particles from `seed`: deterministic given the seed, one
/// record per particle; `n == 0` yields an empty plan.
pub fn reset_galaxy(n: u32, seed: u64) -> (r: Vec<Spawn>)
    ensures
        r@ == spec_galaxy(seed, n),
        r@.len() == n as nat,
{
    let half = n / 2;
    let mut rng = SeedRng::new(seed);
    let mut out: Vec<Spawn> = Vec::new();
    let mut i: u32 = 0;
    while i < n
        invariant
            i <= n,
            half == n / 2,
            rng.seed() == seed,
            rng.drawn() == 3 * i as nat,
            out@ =~= spec_galaxy(seed, n).take(i as int),
        decreases n - i,
    {
        let disc = if i < half {
            Disc::Left
        } else {
            Disc::Right
        };
        let radius_draw = rng.next_u32();
        let angle_draw = rng.next_u32();
        let speed_draw = rng.next_u32();
        out.push(Spawn { disc, radius_draw, angle_draw, speed_draw });
        i = i + 1;
        proof {
            assert(out@ =~= spec_galaxy(seed, n).take(i as int));
        }
    }
    proof {
        assert(out@ =~= spec_galaxy(seed, n));
    }
    out
}

} // verus!
