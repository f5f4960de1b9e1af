use augustinus::IdleTracker;

#[test]
fn becomes_idle_after_threshold() {
    let mut t = IdleTracker::new(5_000);
    t.on_activity();
    t.advance(4_000);
    assert!(!t.is_idle());
    t.advance(2_000);
    assert!(t.is_idle());
}
