use augustinus::{Action, AppState, PaneId};
use augustinus::manager::{general_pty_size, pane_pty_size};

#[test]
fn tiled_pane_gets_half_the_terminal_minus_border() {
    let s = AppState::new_for_test();
    assert_eq!(general_pty_size(&s, 80, 24), (38, 10));
    assert_eq!(pane_pty_size(&s, 80, 24, PaneId::Agents), (38, 10));
}

#[test]
fn fullscreen_pane_gets_the_whole_terminal_minus_border() {
    let mut s = AppState::new_for_test();
    s.apply(Action::FocusRight); // focus General
    s.apply(Action::EnterFullscreen);
    assert_eq!(s.fullscreen, Some(PaneId::General));
    assert_eq!(general_pty_size(&s, 80, 24), (78, 22));
    // a pane that is not the fullscreen target keeps the tiled size
    assert_eq!(pane_pty_size(&s, 80, 24, PaneId::Agents), (38, 10));
}

#[test]
fn tiny_terminal_floors_at_one_by_one() {
    let s = AppState::new_for_test();
    assert_eq!(general_pty_size(&s, 4, 4), (1, 1));
    assert_eq!(general_pty_size(&s, 0, 0), (1, 1));
}
