use augustinus::router::handle_key;
use augustinus::{
    Action, AppState, GeneralInputMode, KeyCode, KeyPress, PaneId, PtyPump, PtySession,
};

fn pump_until_contains(
    session: &mut PtySession,
    pump: &mut PtyPump,
    needle: &str,
    max: usize,
) -> bool {
    for _ in 0..max {
        session.poll();
        if session.snapshot().contents.contains(needle) {
            return true;
        }
        if !pump.pump_once() {
            break;
        }
    }
    session.poll();
    session.snapshot().contents.contains(needle)
}

#[test]
fn locked_pane_passthrough_reaches_the_child() {
    let (mut general, mut general_pump) = PtySession::spawn("/bin/sh", 80, 24).unwrap();
    let (mut agents, _agents_pump) = PtySession::spawn("/bin/sh", 80, 24).unwrap();

    let mut state = AppState::new_for_test();
    state.apply(Action::FocusRight);
    state.apply(Action::EnterGeneralTerminalMode);
    assert_eq!(state.general_input_mode, GeneralInputMode::TerminalLocked);

    for ch in "echo zqzq".chars() {
        let quit = handle_key(
            &mut state,
            KeyPress::plain(KeyCode::Char(ch)),
            &mut general,
            &mut agents,
        );
        assert!(!quit);
    }
    let quit = handle_key(
        &mut state,
        KeyPress::plain(KeyCode::Enter),
        &mut general,
        &mut agents,
    );
    assert!(!quit);

    // forwarding interpreted nothing at the application level
    assert_eq!(state.focused, PaneId::General);
    assert_eq!(state.general_input_mode, GeneralInputMode::TerminalLocked);
    assert_eq!(state.command, None);

    assert!(
        pump_until_contains(&mut general, &mut general_pump, "zqzq", 64),
        "forwarded keys never reached the child; snapshot:\n{}",
        general.snapshot().contents
    );
}

#[test]
fn escape_unlocks_and_sends_nothing() {
    let (mut general, _general_pump) = PtySession::spawn("/bin/sh", 80, 24).unwrap();
    let (mut agents, _agents_pump) = PtySession::spawn("/bin/sh", 80, 24).unwrap();

    let mut state = AppState::new_for_test();
    state.apply(Action::FocusRight);
    state.apply(Action::EnterGeneralTerminalMode);

    let quit = handle_key(
        &mut state,
        KeyPress::plain(KeyCode::Esc),
        &mut general,
        &mut agents,
    );
    assert!(!quit);
    assert_eq!(state.general_input_mode, GeneralInputMode::AppControls);
}

#[test]
fn interrupt_quits_even_while_locked() {
    let (mut general, _general_pump) = PtySession::spawn("/bin/sh", 80, 24).unwrap();
    let (mut agents, _agents_pump) = PtySession::spawn("/bin/sh", 80, 24).unwrap();

    let mut state = AppState::new_for_test();
    state.apply(Action::FocusRight);
    state.apply(Action::EnterGeneralTerminalMode);

    let quit = handle_key(
        &mut state,
        KeyPress::with_ctrl(KeyCode::Char('c')),
        &mut general,
        &mut agents,
    );
    assert!(quit);
}
