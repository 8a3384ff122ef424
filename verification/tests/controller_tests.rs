use particle_playground::controller::{BufferInUse, Controller, FrameOutput, SimError};
use particle_playground::params::{ParamsEguiAction, ParticleUpdated};

const SEED: u64 = 42;

fn running_controller() -> Controller {
    let mut c = Controller::new(SEED);
    c.params.paused = false;
    c
}

fn idle_frame(c: &mut Controller) -> FrameOutput {
    c.frame(ParamsEguiAction::Idle, SEED).unwrap()
}

#[test]
fn new_controller_starts_paused_on_primary() {
    let c = Controller::new(SEED);
    assert!(c.params.paused);
    assert_eq!(c.buffer_in_use, BufferInUse::Primary);
    assert_eq!(c.params.epoch, 0);
    assert_eq!(c.store().capacity(), 131_072);
    assert_eq!(c.store().seeded().len(), 100_000);
}

#[test]
fn running_frames_alternate_marker_and_count_epochs() {
    let mut c = running_controller();
    let k = 7u32;
    for i in 0..k {
        let out = idle_frame(&mut c);
        assert!(out.stepped);
        let expected = if i % 2 == 0 { BufferInUse::Secondary } else { BufferInUse::Primary };
        assert_eq!(c.buffer_in_use, expected);
    }
    // Odd number of steps from Primary: the marker ends on Secondary.
    assert_eq!(c.buffer_in_use, BufferInUse::Secondary);
    assert_eq!(c.params.epoch, k as u128);
    idle_frame(&mut c);
    // Even count: back on Primary.
    assert_eq!(c.buffer_in_use, BufferInUse::Primary);
    assert_eq!(c.params.epoch, k as u128 + 1);
}

#[test]
fn paused_frames_change_nothing() {
    let mut c = Controller::new(SEED);
    assert!(c.params.paused);
    let before_marker = c.buffer_in_use;
    let before_epoch = c.params.epoch;
    for _ in 0..5 {
        let out = idle_frame(&mut c);
        assert!(!out.stepped);
        assert!(!out.reseeded);
        assert_eq!(out.reallocated, None);
    }
    assert_eq!(c.buffer_in_use, before_marker);
    assert_eq!(c.params.epoch, before_epoch);
}

#[test]
fn single_step_while_paused_flips_once() {
    let mut c = Controller::new(SEED);
    assert!(c.params.paused);
    let out = c.frame(ParamsEguiAction::Step, SEED).unwrap();
    assert!(out.stepped);
    assert_eq!(c.buffer_in_use, BufferInUse::Secondary);
    assert_eq!(c.params.epoch, 1);
    // Still paused: the next plain frame does nothing.
    let out = idle_frame(&mut c);
    assert!(!out.stepped);
    assert_eq!(c.buffer_in_use, BufferInUse::Secondary);
    assert_eq!(c.params.epoch, 1);
}

#[test]
fn single_step_while_running_is_rejected() {
    let mut c = running_controller();
    let before = c.params.epoch;
    let r = c.frame(ParamsEguiAction::Step, SEED);
    assert_eq!(r, Err(SimError::StepWhileRunning));
    assert_eq!(c.params.epoch, before);
}

#[test]
fn reset_restores_primary_and_zero_epoch() {
    let mut c = running_controller();
    for _ in 0..3 {
        idle_frame(&mut c);
    }
    assert_eq!(c.buffer_in_use, BufferInUse::Secondary);
    assert_eq!(c.params.epoch, 3);
    let out = c.frame(ParamsEguiAction::Reset, SEED).unwrap();
    assert!(out.reseeded);
    assert!(!out.stepped);
    assert_eq!(c.buffer_in_use, BufferInUse::Primary);
    assert_eq!(c.params.epoch, 0);
    assert_eq!(c.store().seeded().len(), c.params.n as usize);
}

#[test]
fn reset_with_zero_particles_is_rejected() {
    let mut c = Controller::new(SEED);
    c.params.n = 0;
    let r = c.frame(ParamsEguiAction::Reset, SEED);
    assert_eq!(r, Err(SimError::ZeroParticleCount));
    let r = c.frame(ParamsEguiAction::ParameterUpdated(ParticleUpdated::More), SEED);
    assert_eq!(r, Err(SimError::ZeroParticleCount));
}

#[test]
fn growing_the_count_reallocates_and_reseeds() {
    // Scenario: defaults (100 000 particles, paused), then the count is
    // raised to 1 500 000.
    let mut c = Controller::new(SEED);
    assert_eq!(c.params.n, 100_000);
    assert!(c.params.paused);
    c.params.n = 1_500_000;
    let out = c.frame(ParamsEguiAction::ParameterUpdated(ParticleUpdated::More), SEED).unwrap();
    assert_eq!(c.store().capacity(), 2_097_152);
    assert_eq!(out.reallocated, Some(2_097_152));
    assert!(out.reseeded);
    assert_eq!(c.store().seeded().len(), 1_500_000);
    assert_eq!(c.buffer_in_use, BufferInUse::Primary);
}

#[test]
fn shrinking_the_count_reseeds_without_reallocating() {
    let mut c = Controller::new(SEED);
    c.params.n = 10;
    let out = c.frame(ParamsEguiAction::ParameterUpdated(ParticleUpdated::Less), SEED).unwrap();
    assert_eq!(out.reallocated, None);
    assert!(out.reseeded);
    assert_eq!(c.store().capacity(), 131_072);
    assert_eq!(c.store().seeded().len(), 10);
    assert_eq!(c.params.epoch, 0);
}

#[test]
fn frame_always_carries_a_fresh_uniform() {
    let mut c = Controller::new(SEED);
    let out1 = idle_frame(&mut c);
    c.params.dt_bits = 0.07f32.to_bits();
    let out2 = c.frame(ParamsEguiAction::ParameterUpdated(ParticleUpdated::Same), SEED).unwrap();
    assert_ne!(out1.uniform, out2.uniform);
    assert_eq!(f32::from_bits(out2.uniform.dt_bits), 0.07);
}

#[test]
fn dispatch_covers_all_particles_in_groups_of_64() {
    let mut c = running_controller();
    c.params.n = 100_000;
    let out = idle_frame(&mut c);
    assert!(out.stepped);
    assert_eq!(out.workgroups, 1563);
    assert!(out.workgroups * 64 >= c.params.n);

    c.params.n = 64;
    assert_eq!(idle_frame(&mut c).workgroups, 1);
    c.params.n = 65;
    assert_eq!(idle_frame(&mut c).workgroups, 2);
    c.params.n = 1;
    assert_eq!(idle_frame(&mut c).workgroups, 1);
}

#[test]
fn reseed_uses_the_seed_it_is_given() {
    let mut c = Controller::new(1);
    c.params.n = 50;
    c.frame(ParamsEguiAction::Reset, 7).unwrap();
    let a = c.store().seeded().clone();
    c.frame(ParamsEguiAction::Reset, 7).unwrap();
    assert_eq!(*c.store().seeded(), a);
    c.frame(ParamsEguiAction::Reset, 8).unwrap();
    assert_ne!(*c.store().seeded(), a);
}
