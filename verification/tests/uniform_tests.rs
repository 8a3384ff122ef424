use particle_playground::binary32::encode_u32_as_binary32;
use particle_playground::constants::{
    DAMPING_DEFAULT_BITS, DAMPING_MAX_BITS, DAMPING_MIN_BITS, DT_DEFAULT_BITS, DT_MAX_BITS,
    DT_MIN_BITS, G_DEFAULT_BITS, INITIAL_PARTICLES, NEG_ONE_BITS, ONE_BITS,
    SOFTENING_DEFAULT_BITS,
};
use particle_playground::params::{
    clamp_bits, ParamsEguiAction, ParticleUpdated, SimParams, UiInput, WorldBounds,
};

fn no_input() -> UiInput {
    UiInput {
        dt_bits: None,
        g_bits: None,
        softening_bits: None,
        damping_bits: None,
        n: None,
        wrap: None,
        color_by_speed: None,
        reset_parameters: false,
        reset_particles: false,
        toggle_pause: false,
        step: false,
    }
}

#[test]
fn binary32_matches_native_conversion() {
    let samples: Vec<u32> = vec![
        0,
        1,
        2,
        3,
        7,
        63,
        64,
        500,
        100_000,
        1_000_000,
        1_500_000,
        (1 << 23) - 1,
        1 << 23,
        (1 << 24) - 1,
        1 << 24,
        (1 << 24) + 1,
        (1 << 24) + 2,
        (1 << 24) + 3,
        16_777_219,
        123_456_789,
        2_147_483_648,
        3_000_000_001,
        u32::MAX - 1,
        u32::MAX,
    ];
    for n in samples {
        assert_eq!(encode_u32_as_binary32(n), (n as f32).to_bits(), "count {}", n);
    }
}

#[test]
fn binary32_exact_small_values() {
    assert_eq!(encode_u32_as_binary32(0), 0);
    assert_eq!(encode_u32_as_binary32(1), 0x3f80_0000);
    assert_eq!(encode_u32_as_binary32(500), 0x43fa_0000);
}

#[test]
fn default_parameters_hold_documented_baseline() {
    let p = SimParams::default();
    assert_eq!(f32::from_bits(p.dt_bits), 0.016);
    assert_eq!(f32::from_bits(p.g_bits), 6.6743e-11);
    assert_eq!(f32::from_bits(p.softening_bits), 0.01);
    assert_eq!(f32::from_bits(p.damping_bits), 0.999);
    assert_eq!(p.n, 100_000);
    assert_eq!(p.n, INITIAL_PARTICLES);
    assert_eq!(f32::from_bits(p.world.min_x_bits), -1.0);
    assert_eq!(f32::from_bits(p.world.max_y_bits), 1.0);
    assert!(p.wrap);
    assert!(p.paused);
    assert!(!p.color_by_speed);
    assert_eq!(p.epoch, 0);
}

#[test]
fn uniform_round_trip_first_vector() {
    let p = SimParams {
        dt_bits: 0.02f32.to_bits(),
        g_bits: (-9.81f32).to_bits(),
        softening_bits: 0.1f32.to_bits(),
        n: 500,
        ..SimParams::default()
    };
    let u = p.to_uniform();
    assert_eq!(f32::from_bits(u.dt_bits), 0.02);
    assert_eq!(f32::from_bits(u.g_bits), -9.81);
    assert_eq!(f32::from_bits(u.softening_bits), 0.1);
    assert_eq!(f32::from_bits(u.n_bits), 500.0);
}

#[test]
fn uniform_packs_flags_and_world() {
    let mut p = SimParams::default();
    p.wrap = true;
    p.color_by_speed = false;
    let u = p.to_uniform();
    assert_eq!(u.wrap_bits, ONE_BITS);
    assert_eq!(f32::from_bits(u.wrap_bits), 1.0);
    assert_eq!(u.color_by_speed_bits, 0);
    assert_eq!(u.reserved_bits, 0);
    assert_eq!(u.world_min_x_bits, NEG_ONE_BITS);
    assert_eq!(u.world_min_y_bits, NEG_ONE_BITS);
    assert_eq!(u.world_max_x_bits, ONE_BITS);
    assert_eq!(u.world_max_y_bits, ONE_BITS);
    assert_eq!(u.damping_bits, DAMPING_DEFAULT_BITS);

    p.wrap = false;
    p.color_by_speed = true;
    let u2 = p.to_uniform();
    assert_eq!(u2.wrap_bits, 0);
    assert_eq!(u2.color_by_speed_bits, ONE_BITS);
}

#[test]
fn uniform_reflects_every_change() {
    let mut p = SimParams::default();
    let before = p.to_uniform();
    p.dt_bits = 0.05f32.to_bits();
    let after = p.to_uniform();
    assert_ne!(before, after);
    assert_eq!(f32::from_bits(after.dt_bits), 0.05);
}

#[test]
fn epoch_increments_and_wraps() {
    let mut p = SimParams::default();
    p.increment_epoch();
    p.increment_epoch();
    assert_eq!(p.epoch, 2);
    p.epoch = u128::MAX;
    p.increment_epoch();
    assert_eq!(p.epoch, 0);
    p.epoch = 77;
    p.reset_epoch();
    assert_eq!(p.epoch, 0);
}

#[test]
fn clamp_bits_orders_nonnegative_patterns() {
    // For finite non-negative binary32 values, integer order on the bit
    // patterns is numeric order.
    let lo = 0.001f32.to_bits();
    let hi = 0.1f32.to_bits();
    assert_eq!(clamp_bits(0.016f32.to_bits(), lo, hi), 0.016f32.to_bits());
    assert_eq!(clamp_bits(0.0f32.to_bits(), lo, hi), lo);
    assert_eq!(clamp_bits(0.5f32.to_bits(), lo, hi), hi);
    // Patterns with the sign bit set clamp to the lower bound.
    assert_eq!(clamp_bits((-2.0f32).to_bits(), lo, hi), lo);
}

#[test]
fn ui_input_clamps_time_step() {
    let mut p = SimParams::default();
    let mut inp = no_input();
    inp.dt_bits = Some(5.0f32.to_bits());
    let action = p.apply_ui_input(&inp);
    assert_eq!(p.dt_bits, DT_MAX_BITS);
    assert!(matches!(action, ParamsEguiAction::ParameterUpdated(ParticleUpdated::Same)));

    inp.dt_bits = Some(0.0f32.to_bits());
    p.apply_ui_input(&inp);
    assert_eq!(p.dt_bits, DT_MIN_BITS);
}

#[test]
fn ui_input_particle_count_direction() {
    let mut p = SimParams::default();
    let mut inp = no_input();
    inp.n = Some(50_000);
    let action = p.apply_ui_input(&inp);
    assert_eq!(p.n, 50_000);
    assert!(matches!(action, ParamsEguiAction::ParameterUpdated(ParticleUpdated::Less)));

    inp.n = Some(200_000);
    let action = p.apply_ui_input(&inp);
    assert_eq!(p.n, 200_000);
    assert!(matches!(action, ParamsEguiAction::ParameterUpdated(ParticleUpdated::More)));

    inp.n = Some(200_000);
    let action = p.apply_ui_input(&inp);
    assert!(matches!(action, ParamsEguiAction::ParameterUpdated(ParticleUpdated::Same)));

    // The panel range caps the count at one million and one.
    inp.n = Some(5_000_000);
    let action = p.apply_ui_input(&inp);
    assert_eq!(p.n, 1_000_000);
    assert!(matches!(action, ParamsEguiAction::ParameterUpdated(ParticleUpdated::More)));
    inp.n = Some(0);
    p.apply_ui_input(&inp);
    assert_eq!(p.n, 1);
}

#[test]
fn ui_input_reset_parameters_preserves_count() {
    let mut p = SimParams::default();
    p.n = 42_000;
    p.dt_bits = 0.05f32.to_bits();
    p.wrap = false;
    p.epoch = 9;
    let mut inp = no_input();
    inp.reset_parameters = true;
    let action = p.apply_ui_input(&inp);
    assert_eq!(p.n, 42_000);
    assert_eq!(p.dt_bits, DT_DEFAULT_BITS);
    assert_eq!(p.g_bits, G_DEFAULT_BITS);
    assert_eq!(p.softening_bits, SOFTENING_DEFAULT_BITS);
    assert!(p.wrap);
    assert_eq!(p.epoch, 0);
    assert!(matches!(action, ParamsEguiAction::ParameterUpdated(ParticleUpdated::Same)));
}

#[test]
fn ui_input_buttons_and_priority() {
    let mut p = SimParams::default();
    let mut inp = no_input();
    inp.toggle_pause = true;
    let action = p.apply_ui_input(&inp);
    assert!(!p.paused);
    assert!(matches!(action, ParamsEguiAction::ParameterUpdated(ParticleUpdated::Same)));

    let mut inp = no_input();
    inp.reset_particles = true;
    let action = p.apply_ui_input(&inp);
    assert!(matches!(action, ParamsEguiAction::Reset));

    // The step button is the last word of the frame.
    let mut inp = no_input();
    inp.dt_bits = Some(0.02f32.to_bits());
    inp.step = true;
    let action = p.apply_ui_input(&inp);
    assert!(matches!(action, ParamsEguiAction::Step));
    assert_eq!(f32::from_bits(p.dt_bits), 0.02);

    let action = p.apply_ui_input(&no_input());
    assert!(matches!(action, ParamsEguiAction::Idle));
}

#[test]
fn ui_input_damping_clamped_to_documented_range() {
    let mut p = SimParams::default();
    let mut inp = no_input();
    inp.damping_bits = Some(0.5f32.to_bits());
    p.apply_ui_input(&inp);
    assert_eq!(p.damping_bits, DAMPING_MIN_BITS);
    inp.damping_bits = Some(1.5f32.to_bits());
    p.apply_ui_input(&inp);
    assert_eq!(p.damping_bits, DAMPING_MAX_BITS);
    inp.damping_bits = Some(0.95f32.to_bits());
    p.apply_ui_input(&inp);
    assert_eq!(f32::from_bits(p.damping_bits), 0.95);
}

#[test]
fn world_bounds_are_a_unit_scale_square() {
    let w = WorldBounds {
        min_x_bits: NEG_ONE_BITS,
        min_y_bits: NEG_ONE_BITS,
        max_x_bits: ONE_BITS,
        max_y_bits: ONE_BITS,
    };
    assert_eq!(SimParams::default().world, w);
}
