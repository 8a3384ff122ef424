//! Per-frame simulation control.
//!
//! The controller owns the parameter block, the current-buffer marker and
//! the particle storage, and is their sole mutator. Each frame it takes the
//! action the parameter panel emitted and decides what the frame does: the
//! packed uniform record is re-derived unconditionally; a reseed action
//! regrows the storage if needed, reseeds all particles and resets the
//! bookkeeping; otherwise the compute step runs — when the simulation is
//! running, or exactly once for a single-step request while paused — and a
//! completed step flips the marker and counts one epoch. A frame that
//! reseeds does not also step: the freshly seeded state stands as uploaded.
//!
//! Invalid requests are contract violations reported to the caller, never
//! silently ignored: a single-step while running, and a reseed with a zero
//! particle count.

use vstd::prelude::*;
use crate::constants::{PARTICLE_ALLOC_LIMIT, WORKGROUP_SIZE};
use crate::galaxy::{reset_galaxy, spec_galaxy};
use crate::params::{
    spec_default_params, spec_epoch_next, spec_uniform_of, ParamsEguiAction, ParticleUpdated,
    SimParams, SimUniform,
};
use crate::store::{spec_next_pow2, store_inv, ParticleStore, StoreView};

verus! {

/// Marker selecting which of the two buffer regions is the authoritative
/// read source for the next simulation step; the other region is the write
/// target. Flipping the marker after a completed step is what makes the
/// storage double-buffered.
#[derive(Clone, Copy, Debug, PartialEq, Eq, Structural)]
pub enum BufferInUse {
    Primary,
    Secondary,
}

impl BufferInUse {
    /// The marker selecting the other region.
    pub open spec fn spec_flipped(self) -> BufferInUse {
        match self {
            BufferInUse::Primary => BufferInUse::Secondary,
            BufferInUse::Secondary => BufferInUse::Primary,
        }
    }

    /// Advance the marker after a completed step: the region just written
    /// becomes the read source of the next step.
    pub fn tick(&mut self)
        ensures
            *final(self) == old(self).spec_flipped(),
    {
        *self = match *self {
            BufferInUse::Primary => BufferInUse::Secondary,
            BufferInUse::Secondary => BufferInUse::Primary,
        };
    }
}

/// A contract violation reported to the caller.
#[derive(Clone, Copy, Debug, PartialEq, Eq, Structural)]
pub enum SimError {
    /// A single-step was requested while the simulation is running.
    StepWhileRunning,
    /// A reseed was requested with a particle count of zero.
    ZeroParticleCount,
}

/// What a frame asks of the collaborator driving the device: which uploads
/// and dispatches to perform.
#[derive(Clone, Copy, Debug, PartialEq, Eq, Structural)]
pub struct FrameOutput {
    /// The new capacity, if the regions were reallocated this frame; any
    /// binding derived from the old regions must then be recreated.
    pub reallocated: Option<u32>,
    /// Whether the seeding plan changed and must be uploaded again.
    pub reseeded: bool,
    /// Whether a compute step is dispatched this frame.
    pub stepped: bool,
    /// Work groups for the dispatch when `stepped` is set.
    pub workgroups: u32,
    /// The packed uniform record of this frame, re-derived from the block.
    pub uniform: SimUniform,
}

/// The abstract state of the controller.
#[verifier::ext_equal]
pub struct ControllerView {
    pub params: SimParams,
    pub buffer_in_use: BufferInUse,
    pub store: StoreView,
}

/// A controller is well formed when its store is and the particle count
/// admits a power-of-two capacity.
pub open spec fn ctrl_inv(v: ControllerView) -> bool {
    &&& store_inv(v.store)
    &&& v.params.n <= PARTICLE_ALLOC_LIMIT
}

/// Whether an action reseeds all particles: an explicit reset, or a change
/// of the particle count, which invalidates the per-particle assignment.
pub open spec fn spec_resets(action: ParamsEguiAction) -> bool {
    match action {
        ParamsEguiAction::Reset => true,
        ParamsEguiAction::ParameterUpdated(ParticleUpdated::Less) => true,
        ParamsEguiAction::ParameterUpdated(ParticleUpdated::More) => true,
        _ => false,
    }
}

/// Whether the action is a single-step request.
pub open spec fn spec_is_step(action: ParamsEguiAction) -> bool {
    match action {
        ParamsEguiAction::Step => true,
        _ => false,
    }
}

/// Work groups needed to cover `n` lanes: `ceil(n / WORKGROUP_SIZE)`.
pub open spec fn spec_workgroups(n: u32) -> u32 {
    ((n + WORKGROUP_SIZE - 1) as int / WORKGROUP_SIZE as int) as u32
}

/// One frame of the controller, on abstract state: the transition the
/// executable [`Controller::frame`] is proved to implement. See the module
/// doc for the rules it encodes.
pub open spec fn spec_frame(v: ControllerView, action: ParamsEguiAction, seed: u64) -> Result<
    (ControllerView, FrameOutput),
    SimError,
> {
    if spec_is_step(action) && !v.params.paused {
        Err(SimError::StepWhileRunning)
    } else if spec_resets(action) {
        if v.params.n == 0 {
            Err(SimError::ZeroParticleCount)
        } else {
            let grew = v.params.n > v.store.capacity;
            let cap2: u32 = if grew {
                spec_next_pow2(v.params.n as nat) as u32
            } else {
                v.store.capacity
            };
            let v2 = ControllerView {
                params: SimParams { epoch: 0, ..v.params },
                buffer_in_use: BufferInUse::Primary,
                store: StoreView { capacity: cap2, seeded: spec_galaxy(seed, v.params.n) },
            };
            let out = FrameOutput {
                reallocated: if grew {
                    Some(cap2)
                } else {
                    None
                },
                reseeded: true,
                stepped: false,
                workgroups: 0,
                uniform: spec_uniform_of(v2.params),
            };
            Ok((v2, out))
        }
    } else {
        let run = !v.params.paused || spec_is_step(action);
        let v2 = if run {
            ControllerView {
                params: SimParams { epoch: spec_epoch_next(v.params.epoch), ..v.params },
                buffer_in_use: v.buffer_in_use.spec_flipped(),
                store: v.store,
            }
        } else {
            v
        };
        let out = FrameOutput {
            reallocated: None,
            reseeded: false,
            stepped: run,
            workgroups: if run {
                spec_workgroups(v.params.n)
            } else {
                0
            },
            uniform: spec_uniform_of(v2.params),
        };
        Ok((v2, out))
    }
}

/// The simulation controller; see the module doc.
pub struct Controller {
    /// The parameter block. Mutate it through
    /// [`SimParams::apply_ui_input`] and hand the returned action to
    /// [`Controller::frame`].
    pub params: SimParams,
    /// The current-buffer marker.
    pub buffer_in_use: BufferInUse,
    store: ParticleStore,
}

impl View for Controller {
    type V = ControllerView;

    closed spec fn view(&self) -> ControllerView {
        ControllerView {
            params: self.params,
            buffer_in_use: self.buffer_in_use,
            store: self.store@,
        }
    }
}

impl Controller {
    /// Well-formedness: see [`ctrl_inv`].
    pub open spec fn wf(&self) -> bool {
        ctrl_inv(self@)
    }

    /// A controller with the default parameter block, storage sized for the
    /// default particle count, all particles seeded from `seed`, and the
    /// marker on the primary region.
    pub fn new(seed: u64) -> (r: Controller)
        ensures
            r.wf(),
            r@.params == spec_default_params(),
            r@.buffer_in_use == BufferInUse::Primary,
            r@.store.capacity as nat == spec_next_pow2(spec_default_params().n as nat),
            r@.store.seeded == spec_galaxy(seed, spec_default_params().n),
    {
        let params = SimParams::default();
        let mut store = ParticleStore::create(params.n);
        let spawns = reset_galaxy(params.n, seed);
        store.upload_seeded(spawns);
        Controller { params, buffer_in_use: BufferInUse::Primary, store }
    }

    /// The particle storage the controller owns.
    pub fn store(&self) -> (s: &ParticleStore)
        ensures
            s@ == self@.store,
    {
        &self.store
    }

    /// Run one frame: apply `action`, reseeding from `seed` if the action
    /// asks for it, and report what the device collaborator must do. The
    /// result and the new state are exactly [`spec_frame`] of the old
    /// state; on a contract violation the state is untouched. Capacity
    /// never shrinks.
    pub fn frame(&mut self, action: ParamsEguiAction, seed: u64) -> (r: Result<
        FrameOutput,
        SimError,
    >)
        requires
            old(self).wf(),
        ensures
            final(self).wf(),
            final(self)@.store.capacity >= old(self)@.store.capacity,
            (match spec_frame(old(self)@, action, seed) {
                Ok((v2, out)) => r == Ok::<FrameOutput, SimError>(out) && final(self)@ == v2,
                Err(e) => r == Err::<FrameOutput, SimError>(e) && final(self)@ == old(self)@,
            }),
    {
        let is_step = matches!(action, ParamsEguiAction::Step);
        if is_step && !self.params.paused {
            return Err(SimError::StepWhileRunning);
        }
        let resets = match action {
            ParamsEguiAction::Reset => true,
            ParamsEguiAction::ParameterUpdated(ParticleUpdated::Less) => true,
            ParamsEguiAction::ParameterUpdated(ParticleUpdated::More) => true,
            _ => false,
        };
        if resets {
            if self.params.n == 0 {
                return Err(SimError::ZeroParticleCount);
            }
            let grew = self.store.ensure_capacity(self.params.n);
            let spawns = reset_galaxy(self.params.n, seed);
            self.store.upload_seeded(spawns);
            self.buffer_in_use = BufferInUse::Primary;
            self.params.reset_epoch();
            let reallocated = if grew {
                Some(self.store.capacity())
            } else {
                None
            };
            let uniform = self.params.to_uniform();
            proof {
                let (v2, _) = spec_frame(old(self)@, action, seed)->Ok_0;
                assert(self@ =~= v2);
            }
            Ok(FrameOutput { reallocated, reseeded: true, stepped: false, workgroups: 0, uniform })
        } else {
            let run = !self.params.paused || is_step;
            if run {
                self.buffer_in_use.tick();
                self.params.increment_epoch();
            }
            let workgroups = if run {
                (self.params.n + (WORKGROUP_SIZE - 1)) / WORKGROUP_SIZE
            } else {
                0
            };
            let uniform = self.params.to_uniform();
            proof {
                let (v2, _) = spec_frame(old(self)@, action, seed)->Ok_0;
                assert(self@ =~= v2);
            }
            Ok(FrameOutput { reallocated: None, reseeded: false, stepped: run, workgroups, uniform })
        }
    }
}

/// The abstract state after `k` frames in which the panel emitted no
/// action.
pub open spec fn spec_run_idle_frames(v: ControllerView, k: nat, seed: u64) -> ControllerView
    decreases k,
{
    if k == 0 {
        v
    } else {
        let prev = spec_run_idle_frames(v, (k - 1) as nat, seed);
        match spec_frame(prev, ParamsEguiAction::Idle, seed) {
            Ok((v2, _)) => v2,
            Err(_) => prev,
        }
    }
}

/// While running, `k` actionless frames flip the marker `k` times — back to
/// where it started for even `k`, to the other region for odd `k` — count
/// `k` epochs, and touch nothing else.
pub proof fn lemma_running_frames_alternate(v: ControllerView, k: nat, seed: u64)
    requires
        !v.params.paused,
        v.params.epoch + k <= u128::MAX,
    ensures
        ({
            let w = spec_run_idle_frames(v, k, seed);
            &&& w.params == (SimParams { epoch: (v.params.epoch + k) as u128, ..v.params })
            &&& w.buffer_in_use == if k % 2 == 0 {
                v.buffer_in_use
            } else {
                v.buffer_in_use.spec_flipped()
            }
            &&& w.store == v.store
        }),
    decreases k,
{
    if k == 0 {
        assert(spec_run_idle_frames(v, 0, seed).params =~= v.params);
    } else {
        lemma_running_frames_alternate(v, (k - 1) as nat, seed);
    }
}

/// While paused, frames without any action leave the whole state — marker
/// and epoch included — unchanged.
pub proof fn lemma_paused_frames_stand_still(v: ControllerView, k: nat, seed: u64)
    requires
        v.params.paused,
    ensures
        spec_run_idle_frames(v, k, seed) == v,
    decreases k,
{
    if k > 0 {
        lemma_paused_frames_stand_still(v, (k - 1) as nat, seed);
    }
}

/// A single-step while paused flips the marker exactly once and counts
/// exactly one epoch, and changes nothing else; a single-step while running
/// is rejected as a contract violation.
pub proof fn lemma_single_step(v: ControllerView, seed: u64)
    ensures
        v.params.paused ==> spec_frame(v, ParamsEguiAction::Step, seed) == Ok::<
            (ControllerView, FrameOutput),
            SimError,
        >(
            (
                ControllerView {
                    params: SimParams { epoch: spec_epoch_next(v.params.epoch), ..v.params },
                    buffer_in_use: v.buffer_in_use.spec_flipped(),
                    store: v.store,
                },
                FrameOutput {
                    reallocated: None,
                    reseeded: false,
                    stepped: true,
                    workgroups: spec_workgroups(v.params.n),
                    uniform: spec_uniform_of(v.params),
                },
            ),
        ),
        !v.params.paused ==> spec_frame(v, ParamsEguiAction::Step, seed) == Err::<
            (ControllerView, FrameOutput),
            SimError,
        >(SimError::StepWhileRunning),
{
}

/// A reset always leaves the marker on the primary region and the epoch at
/// zero, whatever the prior state (provided the particle count is not the
/// zero that a reseed rejects).
pub proof fn lemma_reset_restores_baseline(v: ControllerView, seed: u64)
    requires
        v.params.n > 0,
    ensures
        ({
            let w = spec_frame(v, ParamsEguiAction::Reset, seed)->Ok_0.0;
            &&& spec_frame(v, ParamsEguiAction::Reset, seed) is Ok
            &&& w.buffer_in_use == BufferInUse::Primary
            &&& w.params.epoch == 0
            &&& w.store.seeded == spec_galaxy(seed, v.params.n)
        }),
{
}

} // verus!
