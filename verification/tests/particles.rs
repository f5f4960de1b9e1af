use augustinus::particles::{ParticleField, Seed};

#[test]
fn particles_move_down_over_time() {
    let mut f = ParticleField::new(Seed(1), 10, 10, 5);
    let before = f.snapshot();
    f.tick(1_000);
    let after = f.snapshot();
    assert_ne!(before, after);
}
