use augustinus::MotivationState;

#[test]
fn focus_start_sets_burst_and_decays() {
    let mut m = MotivationState::new(60_000);
    m.on_focus_start();
    assert!(m.burst_remaining() > 0);
    let before = m.burst_remaining();
    m.tick(100);
    assert!(m.burst_remaining() < before);
}
