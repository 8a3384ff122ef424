use particle_playground::galaxy::reset_galaxy;
use particle_playground::store::ParticleStore;

#[test]
fn create_rounds_capacity_to_a_power_of_two() {
    assert_eq!(ParticleStore::create(1).capacity(), 1);
    assert_eq!(ParticleStore::create(2).capacity(), 2);
    assert_eq!(ParticleStore::create(3).capacity(), 4);
    assert_eq!(ParticleStore::create(100_000).capacity(), 131_072);
    assert_eq!(ParticleStore::create(1_500_000).capacity(), 2_097_152);
    assert_eq!(ParticleStore::create(0x8000_0000).capacity(), 0x8000_0000);
}

#[test]
fn ensure_capacity_is_a_noop_when_it_fits() {
    let mut store = ParticleStore::create(100_000);
    let spawns = reset_galaxy(100_000, 5);
    store.upload_seeded(spawns);
    assert!(!store.ensure_capacity(100_000));
    assert!(!store.ensure_capacity(131_072));
    assert!(!store.ensure_capacity(1));
    assert_eq!(store.capacity(), 131_072);
    assert_eq!(store.seeded().len(), 100_000);
}

#[test]
fn ensure_capacity_growth_discards_contents() {
    let mut store = ParticleStore::create(100);
    store.upload_seeded(reset_galaxy(100, 5));
    assert!(store.ensure_capacity(200));
    assert_eq!(store.capacity(), 256);
    assert!(store.seeded().is_empty());
}

#[test]
fn capacity_is_monotone_and_a_power_of_two() {
    let mut store = ParticleStore::create(1);
    let mut last = store.capacity();
    for req in [1u32, 5, 4, 1000, 17, 1_000_000, 3, 1_500_000, 2_097_152] {
        store.ensure_capacity(req);
        let c = store.capacity();
        assert!(c >= req);
        assert!(c >= last);
        assert_eq!(c.count_ones(), 1);
        last = c;
    }
    assert_eq!(last, 2_097_152);
}
