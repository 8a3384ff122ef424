//! Growable double-buffered particle storage.
//!
//! The store models the device-resident arrays: two regions of positions
//! and velocities plus a shared colour array, all of one capacity, holding
//! the seeding records last uploaded. Capacity is always a power of two and
//! only ever grows; growing reallocates every region and discards old
//! contents, so the caller reseeds immediately afterwards (a reseed writes
//! positions into both regions, so whichever region is current next already
//! holds valid data).

use vstd::prelude::*;
use vstd::arithmetic::power2::is_pow2;
use crate::galaxy::Spawn;

verus! {

/// Smallest power of two that is at least `n` (and at least one).
pub open spec fn spec_next_pow2(n: nat) -> nat
    decreases n,
{
    if n <= 1 {
        1
    } else {
        2 * spec_next_pow2((n + 1) / 2)
    }
}

/// `spec_next_pow2` is a power of two.
pub proof fn lemma_next_pow2_is_pow2(n: nat)
    ensures
        is_pow2(spec_next_pow2(n) as int),
    decreases n,
{
    reveal(is_pow2);
    if n > 1 {
        lemma_next_pow2_is_pow2((n + 1) / 2);
    }
}

/// `spec_next_pow2` covers `n` without overshooting past the double.
pub proof fn lemma_next_pow2_bounds(n: nat)
    requires
        n >= 1,
    ensures
        spec_next_pow2(n) >= n,
        n >= 2 ==> spec_next_pow2(n) <= 2 * (n - 1),
    decreases n,
{
    if n >= 2 {
        lemma_next_pow2_bounds(((n + 1) / 2) as nat);
    }
}

/// `spec_next_pow2` is the smallest power of two covering `n`: any power of
/// two that is at least `n` is at least it.
pub proof fn lemma_next_pow2_minimal(n: nat, q: nat)
    requires
        is_pow2(q as int),
        q >= n,
    ensures
        q >= spec_next_pow2(n),
    decreases n,
{
    reveal(is_pow2);
    if n <= 1 {
        // Any power of two is positive.
        lemma_pow2_pos(q);
    } else {
        // q covers at least two, so q is even and q / 2 is a power of two
        // covering the ceiling half of n.
        lemma_next_pow2_minimal(((n + 1) / 2) as nat, q / 2);
    }
}

/// Powers of two are positive.
proof fn lemma_pow2_pos(q: nat)
    requires
        is_pow2(q as int),
    ensures
        q >= 1,
{
    reveal(is_pow2);
}

/// The capacity after one `ensure_capacity` request: unchanged when the
/// request fits, otherwise the next power of two.
pub open spec fn spec_ensure_capacity_cap(cap: nat, requested: nat) -> nat {
    if requested <= cap {
        cap
    } else {
        spec_next_pow2(requested)
    }
}

/// The capacity after a whole sequence of `ensure_capacity` requests,
/// served in order.
pub open spec fn spec_run_requests(cap: nat, reqs: Seq<nat>) -> nat
    decreases reqs.len(),
{
    if reqs.len() == 0 {
        cap
    } else {
        spec_run_requests(spec_ensure_capacity_cap(cap, reqs[0]), reqs.drop_first())
    }
}

/// After any sequence of `ensure_capacity` requests, the capacity is still
/// a power of two and has never decreased.
pub proof fn lemma_capacity_pow2_monotone(cap: nat, reqs: Seq<nat>)
    requires
        is_pow2(cap as int),
    ensures
        is_pow2(spec_run_requests(cap, reqs) as int),
        spec_run_requests(cap, reqs) >= cap,
    decreases reqs.len(),
{
    if reqs.len() > 0 {
        let cap2 = spec_ensure_capacity_cap(cap, reqs[0]);
        if reqs[0] > cap {
            lemma_next_pow2_is_pow2(reqs[0]);
            lemma_next_pow2_bounds(reqs[0]);
        }
        lemma_capacity_pow2_monotone(cap2, reqs.drop_first());
    }
}

/// The abstract state of the store: its capacity and the seeding records
/// its regions hold.
pub struct StoreView {
    pub capacity: u32,
    pub seeded: Seq<Spawn>,
}

/// A store is well formed when its capacity is a power of two and the
/// seeded records fit in it.
pub open spec fn store_inv(v: StoreView) -> bool {
    &&& is_pow2(v.capacity as int)
    &&& v.seeded.len() <= v.capacity
}

/// The particle storage manager; see the module doc.
pub struct ParticleStore {
    capacity: u32,
    seeded: Vec<Spawn>,
}

impl View for ParticleStore {
    type V = StoreView;

    closed spec fn view(&self) -> StoreView {
        StoreView { capacity: self.capacity, seeded: self.seeded@ }
    }
}

/// Smallest power of two that is at least `n`; see [`spec_next_pow2`].
pub fn next_pow2(n: u32) -> (r: u32)
    requires
        n <= 0x8000_0000,
    ensures
        r == spec_next_pow2(n as nat),
    decreases n,
{
    if n <= 1 {
        1
    } else {
        proof {
            lemma_next_pow2_bounds(((n + 1) / 2) as nat);
        }
        2 * next_pow2((n + 1) / 2)
    }
}

impl ParticleStore {
    /// Well-formedness: see [`store_inv`].
    pub open spec fn wf(&self) -> bool {
        store_inv(self@)
    }

    /// Fresh storage sized for `requested` particles, with nothing seeded
    /// yet.
    pub fn create(requested: u32) -> (r: ParticleStore)
        requires
            1 <= requested <= 0x8000_0000,
        ensures
            r.wf(),
            r@.capacity == spec_next_pow2(requested as nat),
            r@.capacity >= requested,
            r@.seeded == Seq::<Spawn>::empty(),
    {
        proof {
            lemma_next_pow2_is_pow2(requested as nat);
            lemma_next_pow2_bounds(requested as nat);
        }
        let capacity = next_pow2(requested);
        let r = ParticleStore { capacity, seeded: Vec::new() };
        proof {
            assert(r@.seeded =~= Seq::<Spawn>::empty());
        }
        r
    }

    /// The store's capacity in particle slots.
    pub fn capacity(&self) -> (c: u32)
        ensures
            c == self@.capacity,
    {
        self.capacity
    }

    /// The seeding records the regions hold.
    pub fn seeded(&self) -> (s: &Vec<Spawn>)
        ensures
            s@ == self@.seeded,
    {
        &self.seeded
    }

    /// Grow the regions to hold `requested` particles: a no-op if they
    /// already fit, otherwise every region is reallocated at the next power
    /// of two and old contents are discarded. Returns whether a
    /// reallocation happened (any binding to the old regions must then be
    /// recreated). Capacity never shrinks.
    pub fn ensure_capacity(&mut self, requested: u32) -> (reallocated: bool)
        requires
            old(self).wf(),
            requested <= 0x8000_0000,
        ensures
            final(self).wf(),
            reallocated == (requested > old(self)@.capacity),
            final(self)@.capacity as nat == spec_ensure_capacity_cap(
                old(self)@.capacity as nat,
                requested as nat,
            ),
            final(self)@.capacity >= old(self)@.capacity,
            final(self)@.capacity >= requested,
            final(self)@.seeded == if reallocated {
                Seq::<Spawn>::empty()
            } else {
                old(self)@.seeded
            },
    {
        if requested <= self.capacity {
            return false;
        }
        proof {
            lemma_next_pow2_is_pow2(requested as nat);
            lemma_next_pow2_bounds(requested as nat);
        }
        self.capacity = next_pow2(requested);
        self.seeded = Vec::new();
        proof {
            assert(self@.seeded =~= Seq::<Spawn>::empty());
        }
        true
    }

    /// Upload a seeding plan into the regions: positions are written into
    /// both buffer regions, velocities and colours into theirs.
    pub fn upload_seeded(&mut self, spawns: Vec<Spawn>)
        requires
            old(self).wf(),
            spawns@.len() <= old(self)@.capacity,
        ensures
            final(self).wf(),
            final(self)@.capacity == old(self)@.capacity,
            final(self)@.seeded == spawns@,
    {
        self.seeded = spawns;
    }
}

} // verus!
