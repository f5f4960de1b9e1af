use augustinus::{Action, AppState, GeneralInputMode, KeyCode, KeyPress, KeyRoute, PaneId};
use augustinus::router::route_key;

fn locked_general() -> AppState {
    let mut s = AppState::new_for_test();
    s.apply(Action::FocusRight);
    s.apply(Action::EnterGeneralTerminalMode);
    assert_eq!(s.general_input_mode, GeneralInputMode::TerminalLocked);
    s
}

#[test]
fn locked_pane_forwards_everything_but_escape() {
    let s = locked_general();
    for key in [
        KeyPress::plain(KeyCode::Char('h')),
        KeyPress::plain(KeyCode::Char('q')),
        KeyPress::plain(KeyCode::Enter),
        KeyPress::plain(KeyCode::Tab),
        KeyPress::plain(KeyCode::Up),
        KeyPress::with_ctrl(KeyCode::Char('d')),
    ] {
        assert_eq!(route_key(&s, key), KeyRoute::Forward(PaneId::General));
    }
}

#[test]
fn escape_and_only_escape_unlocks() {
    let s = locked_general();
    assert_eq!(
        route_key(&s, KeyPress::plain(KeyCode::Esc)),
        KeyRoute::Unlock(PaneId::General)
    );
    // Escape with no lock has no lock-related effect
    let mut unlocked = AppState::new_for_test();
    unlocked.apply(Action::FocusRight);
    assert_eq!(route_key(&unlocked, KeyPress::plain(KeyCode::Esc)), KeyRoute::App(None));
}

#[test]
fn interrupt_wins_in_every_state() {
    let interrupt = KeyPress::with_ctrl(KeyCode::Char('c'));
    let s = locked_general();
    assert_eq!(route_key(&s, interrupt), KeyRoute::Quit);
    let mut command_mode = AppState::new_for_test();
    command_mode.apply(Action::EnterCommandMode);
    assert_eq!(route_key(&command_mode, interrupt), KeyRoute::Quit);
    let plain = AppState::new_for_test();
    assert_eq!(route_key(&plain, interrupt), KeyRoute::Quit);
}

#[test]
fn command_mode_preempts_pane_routing() {
    let mut s = locked_general();
    s.command = Some(String::new());
    assert_eq!(
        route_key(&s, KeyPress::plain(KeyCode::Char('x'))),
        KeyRoute::CommandEdit(Some(Action::CommandAppend('x')))
    );
    assert_eq!(
        route_key(&s, KeyPress::plain(KeyCode::Enter)),
        KeyRoute::CommandEdit(Some(Action::SubmitCommand))
    );
    assert_eq!(
        route_key(&s, KeyPress::plain(KeyCode::Esc)),
        KeyRoute::CommandEdit(Some(Action::ExitCommandMode))
    );
}

#[test]
fn command_buffer_edits_apply() {
    let mut s = AppState::new_for_test();
    s.apply(Action::EnterCommandMode);
    s.apply(Action::CommandAppend('h'));
    s.apply(Action::CommandAppend('i'));
    assert_eq!(s.command.as_deref(), Some("hi"));
    s.apply(Action::CommandBackspace);
    assert_eq!(s.command.as_deref(), Some("h"));
    s.apply(Action::SubmitCommand);
    assert_eq!(s.command, None);
    assert_eq!(s.last_command.as_deref(), Some("h"));
}

#[test]
fn app_keys_map_to_actions() {
    let s = AppState::new_for_test();
    assert_eq!(
        route_key(&s, KeyPress::plain(KeyCode::Char('j'))),
        KeyRoute::App(Some(Action::FocusDown))
    );
    assert_eq!(
        route_key(&s, KeyPress::plain(KeyCode::Tab)),
        KeyRoute::App(Some(Action::RotateFocus))
    );
    assert_eq!(
        route_key(&s, KeyPress::plain(KeyCode::Char(':'))),
        KeyRoute::App(Some(Action::EnterCommandMode))
    );
    assert_eq!(
        route_key(&s, KeyPress::plain(KeyCode::Enter)),
        KeyRoute::App(Some(Action::EnterFullscreen))
    );
    let mut on_general = AppState::new_for_test();
    on_general.apply(Action::FocusRight);
    assert_eq!(
        route_key(&on_general, KeyPress::plain(KeyCode::Enter)),
        KeyRoute::App(Some(Action::EnterGeneralTerminalMode))
    );
}
