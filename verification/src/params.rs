//! The simulation parameter block and its packed uniform record.
//!
//! Fractional parameters are carried as the bit patterns of IEEE-754
//! binary32 values (see [`crate::constants`]); the block can therefore be
//! packed into the fixed uniform layout with integer arithmetic only, and
//! the packing is proved exact.

use vstd::prelude::*;
use crate::binary32::{binary32_of_u32, encode_u32_as_binary32};
use crate::constants::{
    COLOR_BY_SPEED_DEFAULT, DAMPING_DEFAULT_BITS, DAMPING_MAX_BITS, DAMPING_MIN_BITS,
    DT_DEFAULT_BITS, DT_MAX_BITS, DT_MIN_BITS, G_DEFAULT_BITS, G_MAX_BITS, G_MIN_BITS,
    INITIAL_PARTICLES, NEG_ONE_BITS, ONE_BITS, PARTICLES_MAX, PARTICLES_MIN, PAUSED_DEFAULT,
    SOFTENING_DEFAULT_BITS, SOFTENING_MAX_BITS, SOFTENING_MIN_BITS, WRAP_DEFAULT,
};

verus! {

/// Two corners of the axis-aligned bounding square of the world, as
/// binary32 bit patterns.
#[derive(Clone, Copy, Debug, PartialEq, Eq, Structural)]
pub struct WorldBounds {
    pub min_x_bits: u32,
    pub min_y_bits: u32,
    pub max_x_bits: u32,
    pub max_y_bits: u32,
}

/// The simulation parameter block. Fractional fields hold binary32 bit
/// patterns; `epoch` counts completed steps and is mutated only by the
/// controller's step logic.
#[derive(Clone, Copy, Debug, PartialEq, Eq, Structural)]
pub struct SimParams {
    /// Time step in seconds.
    pub dt_bits: u32,
    /// Gravitational constant.
    pub g_bits: u32,
    /// Softening factor guarding the distance singularity in the force law.
    pub softening_bits: u32,
    /// Velocity damping factor per step.
    pub damping_bits: u32,
    /// Number of active particles.
    pub n: u32,
    /// World bounds.
    pub world: WorldBounds,
    /// Whether positions leaving the world re-enter from the opposite edge.
    pub wrap: bool,
    /// Whether render colour derives from speed rather than stored colour.
    pub color_by_speed: bool,
    /// Whether the simulation is paused.
    pub paused: bool,
    /// Completed-step counter; wraps on overflow.
    pub epoch: u128,
}

/// The packed uniform record consumed by the compute stage: twelve binary32
/// values laid out as three vectors of four, 16-byte aligned, in field
/// order. Re-derived from the parameter block whenever any field changes.
#[derive(Clone, Copy, Debug, PartialEq, Eq, Structural)]
pub struct SimUniform {
    /// First vector: `(dt, g, softening, n)`.
    pub dt_bits: u32,
    pub g_bits: u32,
    pub softening_bits: u32,
    /// The particle count, encoded as a binary32 value.
    pub n_bits: u32,
    /// Second vector: `(damping, wrap flag, colour-by-speed flag, reserved)`.
    pub damping_bits: u32,
    pub wrap_bits: u32,
    pub color_by_speed_bits: u32,
    pub reserved_bits: u32,
    /// Third vector: the world corners `(min x, min y, max x, max y)`.
    pub world_min_x_bits: u32,
    pub world_min_y_bits: u32,
    pub world_max_x_bits: u32,
    pub world_max_y_bits: u32,
}

/// How a parameter-panel change affected the particle count.
#[derive(Clone, Copy, Debug, PartialEq, Eq, Structural)]
pub enum ParticleUpdated {
    Less,
    More,
    Same,
}

/// The action a frame's parameter-panel input asks of the controller.
#[derive(Clone, Copy, Debug, PartialEq, Eq, Structural)]
pub enum ParamsEguiAction {
    /// No action.
    Idle,
    /// Reseed the particles.
    Reset,
    /// Parameter updates.
    ParameterUpdated(ParticleUpdated),
    /// Step the simulation (valid only while paused).
    Step,
}

/// One frame of parameter-panel input: each `Some` is a widget that
/// reported a changed value this frame, each `true` a button press.
#[derive(Clone, Copy, Debug, PartialEq, Eq, Structural)]
pub struct UiInput {
    pub dt_bits: Option<u32>,
    pub g_bits: Option<u32>,
    pub softening_bits: Option<u32>,
    pub damping_bits: Option<u32>,
    pub n: Option<u32>,
    pub wrap: Option<bool>,
    pub color_by_speed: Option<bool>,
    pub reset_parameters: bool,
    pub reset_particles: bool,
    pub toggle_pause: bool,
    pub step: bool,
}

/// Clamp a proposed binary32 bit pattern into `[lo, hi]`, where `lo` and
/// `hi` are patterns of finite non-negative values (integer order on such
/// patterns coincides with numeric order). Patterns with the sign bit set —
/// negative values and negative NaNs — clamp to `lo`.
pub open spec fn spec_clamp_bits(x: u32, lo: u32, hi: u32) -> u32 {
    if x >= 0x8000_0000 {
        lo
    } else if x < lo {
        lo
    } else if x > hi {
        hi
    } else {
        x
    }
}

/// Clamp a proposed particle count into the accepted range.
pub open spec fn spec_clamp_count(x: u32, lo: u32, hi: u32) -> u32 {
    if x < lo {
        lo
    } else if x > hi {
        hi
    } else {
        x
    }
}

/// The default parameter block: the simulation starts paused, with a
/// moderate gravitational constant, a unit-scale world square and wrapping
/// edges.
pub open spec fn spec_default_params() -> SimParams {
    SimParams {
        dt_bits: DT_DEFAULT_BITS,
        g_bits: G_DEFAULT_BITS,
        softening_bits: SOFTENING_DEFAULT_BITS,
        damping_bits: DAMPING_DEFAULT_BITS,
        n: INITIAL_PARTICLES,
        world: WorldBounds {
            min_x_bits: NEG_ONE_BITS,
            min_y_bits: NEG_ONE_BITS,
            max_x_bits: ONE_BITS,
            max_y_bits: ONE_BITS,
        },
        wrap: WRAP_DEFAULT,
        color_by_speed: COLOR_BY_SPEED_DEFAULT,
        paused: PAUSED_DEFAULT,
        epoch: 0,
    }
}

/// The packed uniform record derived from a parameter block: bit patterns
/// are copied through, the particle count is encoded as a binary32 value,
/// flags become the patterns of one and zero, and the reserved slot is
/// zero.
pub open spec fn spec_uniform_of(p: SimParams) -> SimUniform {
    SimUniform {
        dt_bits: p.dt_bits,
        g_bits: p.g_bits,
        softening_bits: p.softening_bits,
        n_bits: binary32_of_u32(p.n),
        damping_bits: p.damping_bits,
        wrap_bits: if p.wrap {
            ONE_BITS
        } else {
            0
        },
        color_by_speed_bits: if p.color_by_speed {
            ONE_BITS
        } else {
            0
        },
        reserved_bits: 0,
        world_min_x_bits: p.world.min_x_bits,
        world_min_y_bits: p.world.min_y_bits,
        world_max_x_bits: p.world.max_x_bits,
        world_max_y_bits: p.world.max_y_bits,
    }
}

/// The epoch counter after one completed step: increments, wrapping on
/// overflow.
pub open spec fn spec_epoch_next(e: u128) -> u128 {
    if e == u128::MAX {
        0
    } else {
        (e + 1) as u128
    }
}

/// The parameter block after one frame of panel input, with the action the
/// frame asks of the controller. Each changed widget, in panel order,
/// applies its (clamped) value and overwrites the action; the buttons
/// follow in row order. Restoring defaults keeps the caller-chosen
/// particle count.
pub open spec fn spec_apply_ui(p0: SimParams, inp: UiInput) -> (SimParams, ParamsEguiAction) {
    let upd_same = ParamsEguiAction::ParameterUpdated(ParticleUpdated::Same);
    let (p1, a1) = match inp.dt_bits {
        Some(v) => (
            SimParams { dt_bits: spec_clamp_bits(v, DT_MIN_BITS, DT_MAX_BITS), ..p0 },
            upd_same,
        ),
        None => (p0, ParamsEguiAction::Idle),
    };
    let (p2, a2) = match inp.g_bits {
        Some(v) => (SimParams { g_bits: spec_clamp_bits(v, G_MIN_BITS, G_MAX_BITS), ..p1 }, upd_same),
        None => (p1, a1),
    };
    let (p3, a3) = match inp.softening_bits {
        Some(v) => (
            SimParams {
                softening_bits: spec_clamp_bits(v, SOFTENING_MIN_BITS, SOFTENING_MAX_BITS),
                ..p2
            },
            upd_same,
        ),
        None => (p2, a2),
    };
    let (p4, a4) = match inp.damping_bits {
        Some(v) => (
            SimParams { damping_bits: spec_clamp_bits(v, DAMPING_MIN_BITS, DAMPING_MAX_BITS), ..p3 },
            upd_same,
        ),
        None => (p3, a3),
    };
    let (p5, a5) = match inp.n {
        Some(v) => {
            let v2 = spec_clamp_count(v, PARTICLES_MIN, PARTICLES_MAX);
            let upd = if v2 < p4.n {
                ParticleUpdated::Less
            } else if v2 > p4.n {
                ParticleUpdated::More
            } else {
                ParticleUpdated::Same
            };
            (SimParams { n: v2, ..p4 }, ParamsEguiAction::ParameterUpdated(upd))
        },
        None => (p4, a4),
    };
    let (p6, a6) = match inp.wrap {
        Some(v) => (SimParams { wrap: v, ..p5 }, upd_same),
        None => (p5, a5),
    };
    let (p7, a7) = match inp.color_by_speed {
        Some(v) => (SimParams { color_by_speed: v, ..p6 }, upd_same),
        None => (p6, a6),
    };
    let (p8, a8) = if inp.reset_parameters {
        (SimParams { n: p7.n, ..spec_default_params() }, upd_same)
    } else {
        (p7, a7)
    };
    let a9 = if inp.reset_particles {
        ParamsEguiAction::Reset
    } else {
        a8
    };
    let (p10, a10) = if inp.toggle_pause {
        (SimParams { paused: !p8.paused, ..p8 }, upd_same)
    } else {
        (p8, a9)
    };
    let a11 = if inp.step {
        ParamsEguiAction::Step
    } else {
        a10
    };
    (p10, a11)
}

/// Clamp a proposed binary32 bit pattern into `[lo, hi]`; see
/// [`spec_clamp_bits`].
pub fn clamp_bits(x: u32, lo: u32, hi: u32) -> (r: u32)
    ensures
        r == spec_clamp_bits(x, lo, hi),
{
    if x >= 0x8000_0000 {
        lo
    } else if x < lo {
        lo
    } else if x > hi {
        hi
    } else {
        x
    }
}

impl Default for SimParams {
    /// The documented baseline values; see [`spec_default_params`].
    fn default() -> (r: Self)
        ensures
            r == spec_default_params(),
    {
        SimParams {
            dt_bits: DT_DEFAULT_BITS,
            g_bits: G_DEFAULT_BITS,
            softening_bits: SOFTENING_DEFAULT_BITS,
            damping_bits: DAMPING_DEFAULT_BITS,
            n: INITIAL_PARTICLES,
            world: WorldBounds {
                min_x_bits: NEG_ONE_BITS,
                min_y_bits: NEG_ONE_BITS,
                max_x_bits: ONE_BITS,
                max_y_bits: ONE_BITS,
            },
            wrap: WRAP_DEFAULT,
            color_by_speed: COLOR_BY_SPEED_DEFAULT,
            paused: PAUSED_DEFAULT,
            epoch: 0,
        }
    }
}

impl SimParams {
    /// Pack the block into the uniform record; pure, reflecting the current
    /// field values exactly.
    pub fn to_uniform(&self) -> (u: SimUniform)
        ensures
            u == spec_uniform_of(*self),
    {
        SimUniform {
            dt_bits: self.dt_bits,
            g_bits: self.g_bits,
            softening_bits: self.softening_bits,
            n_bits: encode_u32_as_binary32(self.n),
            damping_bits: self.damping_bits,
            wrap_bits: if self.wrap {
                ONE_BITS
            } else {
                0
            },
            color_by_speed_bits: if self.color_by_speed {
                ONE_BITS
            } else {
                0
            },
            reserved_bits: 0,
            world_min_x_bits: self.world.min_x_bits,
            world_min_y_bits: self.world.min_y_bits,
            world_max_x_bits: self.world.max_x_bits,
            world_max_y_bits: self.world.max_y_bits,
        }
    }

    /// Count one completed step, wrapping on overflow; every other field is
    /// untouched.
    pub fn increment_epoch(&mut self)
        ensures
            *final(self) == (SimParams { epoch: spec_epoch_next(old(self).epoch), ..*old(self) }),
    {
        if self.epoch == u128::MAX {
            self.epoch = 0;
        } else {
            self.epoch = self.epoch + 1;
        }
    }

    /// Reset the step counter; every other field is untouched.
    pub fn reset_epoch(&mut self)
        ensures
            *final(self) == (SimParams { epoch: 0, ..*old(self) }),
    {
        self.epoch = 0;
    }

    /// Apply one frame of parameter-panel input: each changed widget writes
    /// its clamped value, and the returned action tells the controller what
    /// the frame asks for. See [`spec_apply_ui`].
    pub fn apply_ui_input(&mut self, inp: &UiInput) -> (action: ParamsEguiAction)
        ensures
            (*final(self), action) == spec_apply_ui(*old(self), *inp),
    {
        let mut action = ParamsEguiAction::Idle;
        if let Some(v) = inp.dt_bits {
            self.dt_bits = clamp_bits(v, DT_MIN_BITS, DT_MAX_BITS);
            action = ParamsEguiAction::ParameterUpdated(ParticleUpdated::Same);
        }
        if let Some(v) = inp.g_bits {
            self.g_bits = clamp_bits(v, G_MIN_BITS, G_MAX_BITS);
            action = ParamsEguiAction::ParameterUpdated(ParticleUpdated::Same);
        }
        if let Some(v) = inp.softening_bits {
            self.softening_bits = clamp_bits(v, SOFTENING_MIN_BITS, SOFTENING_MAX_BITS);
            action = ParamsEguiAction::ParameterUpdated(ParticleUpdated::Same);
        }
        if let Some(v) = inp.damping_bits {
            self.damping_bits = clamp_bits(v, DAMPING_MIN_BITS, DAMPING_MAX_BITS);
            action = ParamsEguiAction::ParameterUpdated(ParticleUpdated::Same);
        }
        if let Some(v) = inp.n {
            let v2 = if v < PARTICLES_MIN {
                PARTICLES_MIN
            } else if v > PARTICLES_MAX {
                PARTICLES_MAX
            } else {
                v
            };
            let upd = if v2 < self.n {
                ParticleUpdated::Less
            } else if v2 > self.n {
                ParticleUpdated::More
            } else {
                ParticleUpdated::Same
            };
            self.n = v2;
            action = ParamsEguiAction::ParameterUpdated(upd);
        }
        if let Some(v) = inp.wrap {
            self.wrap = v;
            action = ParamsEguiAction::ParameterUpdated(ParticleUpdated::Same);
        }
        if let Some(v) = inp.color_by_speed {
            self.color_by_speed = v;
            action = ParamsEguiAction::ParameterUpdated(ParticleUpdated::Same);
        }
        if inp.reset_parameters {
            let keep_n = self.n;
            *self = SimParams::default();
            self.n = keep_n;
            action = ParamsEguiAction::ParameterUpdated(ParticleUpdated::Same);
        }
        if inp.reset_particles {
            action = ParamsEguiAction::Reset;
        }
        if inp.toggle_pause {
            self.paused = !self.paused;
            action = ParamsEguiAction::ParameterUpdated(ParticleUpdated::Same);
        }
        if inp.step {
            action = ParamsEguiAction::Step;
        }
        action
    }
}

} // verus!
