use augustinus::MotivationState;

#[test]
fn initial_quote_is_the_first_encouraging_quote() {
    let m = MotivationState::new(60_000);
    assert_eq!(m.quote(), "You are building something compounding.");
    assert_eq!(m.ticker_window(), "");
}

#[test]
fn wake_from_idle_fires_the_wake_pulse() {
    let mut m = MotivationState::new(5_000);
    m.tick(5_000);
    assert!(m.idle.is_idle());
    m.on_activity();
    assert_eq!(m.wake_pulse_remaining(), 700);
}

#[test]
fn focus_events_arm_their_timers_exactly() {
    let mut m = MotivationState::new(60_000);
    m.on_focus_start();
    assert_eq!(m.burst_remaining(), 900);
    m.on_focus_stop();
    assert_eq!(m.cool_down_remaining(), 600);
}
