//! Baseline values and documented bounds of the simulation parameters.
//!
//! Fractional parameters are carried as the bit patterns of IEEE-754
//! binary32 values. All bounds below are non-negative, and for the bit
//! patterns of finite non-negative binary32 values integer order coincides
//! with numeric order, so clamping and comparing can be done on the
//! patterns themselves.

use vstd::prelude::*;

verus! {

/// Bit pattern of binary32 `0.016`: default time step (about 60 steps/s).
pub const DT_DEFAULT_BITS: u32 = 0x3c83126f;

/// Bit pattern of binary32 `0.001`: smallest accepted time step.
pub const DT_MIN_BITS: u32 = 0x3a83126f;

/// Bit pattern of binary32 `0.1`: largest accepted time step.
pub const DT_MAX_BITS: u32 = 0x3dcccccd;

/// Bit pattern of binary32 `6.6743e-11`: default gravitational constant.
pub const G_DEFAULT_BITS: u32 = 0x2e92c4f8;

/// Bit pattern of binary32 `0.0`: smallest accepted gravitational constant.
pub const G_MIN_BITS: u32 = 0x0000_0000;

/// Bit pattern of binary32 `1e-10`: largest accepted gravitational constant.
pub const G_MAX_BITS: u32 = 0x2edbe6ff;

/// Bit pattern of binary32 `0.01`: default softening factor.
pub const SOFTENING_DEFAULT_BITS: u32 = 0x3c23d70a;

/// Bit pattern of binary32 `0.0`: smallest accepted softening factor.
pub const SOFTENING_MIN_BITS: u32 = 0x0000_0000;

/// Bit pattern of binary32 `0.1`: largest accepted softening factor.
pub const SOFTENING_MAX_BITS: u32 = 0x3dcccccd;

/// Bit pattern of binary32 `0.999`: default velocity damping factor.
pub const DAMPING_DEFAULT_BITS: u32 = 0x3f7fbe77;

/// Bit pattern of binary32 `0.9`: smallest accepted damping factor.
pub const DAMPING_MIN_BITS: u32 = 0x3f666666;

/// Bit pattern of binary32 `1.0`: largest accepted damping factor.
pub const DAMPING_MAX_BITS: u32 = 0x3f80_0000;

/// Bit pattern of binary32 `1.0`, also used to encode `true` in the packed
/// uniform record.
pub const ONE_BITS: u32 = 0x3f80_0000;

/// Bit pattern of binary32 `-1.0`: default lower world corner coordinate.
pub const NEG_ONE_BITS: u32 = 0xbf80_0000;

/// Default number of active particles.
pub const INITIAL_PARTICLES: u32 = 100_000;

/// Smallest particle count the parameter panel accepts.
pub const PARTICLES_MIN: u32 = 1;

/// Largest particle count the parameter panel accepts.
pub const PARTICLES_MAX: u32 = 1_000_000;

/// Whether positions leaving the world re-enter from the opposite edge,
/// by default.
pub const WRAP_DEFAULT: bool = true;

/// Whether render colour derives from speed rather than the stored
/// per-particle colour, by default.
pub const COLOR_BY_SPEED_DEFAULT: bool = false;

/// The simulation starts paused.
pub const PAUSED_DEFAULT: bool = true;

/// Lanes per compute work group; the step is dispatched with
/// `ceil(n / WORKGROUP_SIZE)` groups.
pub const WORKGROUP_SIZE: u32 = 64;

/// Largest particle count for which a power-of-two capacity still fits in
/// a 32-bit count: `2^31`.
pub const PARTICLE_ALLOC_LIMIT: u32 = 0x8000_0000;

} // verus!
