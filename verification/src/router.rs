use vstd::prelude::*;
use crate::action::{Action, AgentsInputMode, GeneralInputMode};
use crate::keys::{is_printable, spec_is_printable, KeyCode, KeyPress};
use crate::panes::PaneId;
use crate::session::PtySession;
use crate::state::{spec_apply_rel, AppState};

verus! {

/// What the router decides to do with one key press, in fixed priority
/// order: the global interrupt, command-buffer editing, terminal-locked
/// passthrough (with Escape as the single way out), and application keys.
#[derive(Debug, Clone, Copy, PartialEq, Eq, Structural)]
pub enum KeyRoute {
    /// The fixed global interrupt (Control + c): terminate the application.
    Quit,
    /// Command entry is active and consumes the key.
    CommandEdit(Option<Action>),
    /// The focused pane is terminal-locked: forward the key verbatim to its
    /// session.
    Forward(PaneId),
    /// Escape pressed on the focused, terminal-locked pane: unlock it.
    Unlock(PaneId),
    /// An application-level key (focus movement, fullscreen, command entry,
    /// terminal lock).
    App(Option<Action>),
}

pub open spec fn spec_is_interrupt(key: KeyPress) -> bool {
    key.code == KeyCode::Char('c') && key.ctrl
}

/// The routing decision for one key press, evaluated in the fixed priority
/// order: interrupt, command entry, locked-pane passthrough, application
/// keys. No key is ever interpreted twice.
pub open spec fn spec_route_key(s: AppState, key: KeyPress) -> KeyRoute {
    if spec_is_interrupt(key) {
        KeyRoute::Quit
    } else if s.command is Some {
        KeyRoute::CommandEdit(
            match key.code {
                KeyCode::Esc => Some(Action::ExitCommandMode),
                KeyCode::Enter => Some(Action::SubmitCommand),
                KeyCode::Backspace => Some(Action::CommandBackspace),
                KeyCode::Char(ch) => if spec_is_printable(ch) && key.no_modifiers {
                    Some(Action::CommandAppend(ch))
                } else {
                    None
                },
                _ => None,
            },
        )
    } else if s.focused == PaneId::General && s.general_input_mode
        == GeneralInputMode::TerminalLocked {
        if key.code == KeyCode::Esc {
            KeyRoute::Unlock(PaneId::General)
        } else {
            KeyRoute::Forward(PaneId::General)
        }
    } else if s.focused == PaneId::Agents && s.agents_input_mode == AgentsInputMode::CodexLocked {
        if key.code == KeyCode::Esc {
            KeyRoute::Unlock(PaneId::Agents)
        } else {
            KeyRoute::Forward(PaneId::Agents)
        }
    } else {
        KeyRoute::App(spec_app_action(s, key))
    }
}

/// The application action of a key once interrupt, command entry and locked
/// panes are out of the way.
pub open spec fn spec_app_action(s: AppState, key: KeyPress) -> Option<Action> {
    match key.code {
        KeyCode::Char(ch) => if ch == 'h' {
            Some(Action::FocusLeft)
        } else if ch == 'j' {
            Some(Action::FocusDown)
        } else if ch == 'k' {
            Some(Action::FocusUp)
        } else if ch == 'l' {
            Some(Action::FocusRight)
        } else if ch == ':' {
            Some(Action::EnterCommandMode)
        } else {
            None
        },
        KeyCode::Tab => Some(Action::RotateFocus),
        KeyCode::Enter => if s.focused == PaneId::General && s.general_input_mode
            == GeneralInputMode::AppControls {
            Some(Action::EnterGeneralTerminalMode)
        } else if s.focused == PaneId::Agents && s.agents_input_mode
            == AgentsInputMode::PaneControls {
            Some(Action::EnterAgentsTerminalMode)
        } else {
            Some(Action::EnterFullscreen)
        },
        KeyCode::Esc => if s.fullscreen is Some {
            Some(Action::ExitFullscreen)
        } else {
            None
        },
        _ => None,
    }
}

/// The fixed global interrupt combination, honoured in every state.
pub fn should_quit(key: KeyPress) -> (r: bool)
    ensures
        r == spec_is_interrupt(key),
{
    match key.code {
        KeyCode::Char(ch) => ch == 'c' && key.ctrl,
        _ => false,
    }
}

/// Computes the routing decision; pure.
pub fn route_key(s: &AppState, key: KeyPress) -> (r: KeyRoute)
    ensures
        r == spec_route_key(*s, key),
{
    if should_quit(key) {
        return KeyRoute::Quit;
    }
    if s.command.is_some() {
        let edit: Option<Action> = match key.code {
            KeyCode::Esc => Some(Action::ExitCommandMode),
            KeyCode::Enter => Some(Action::SubmitCommand),
            KeyCode::Backspace => Some(Action::CommandBackspace),
            KeyCode::Char(ch) => {
                if is_printable(ch) && key.no_modifiers {
                    Some(Action::CommandAppend(ch))
                } else {
                    None
                }
            },
            _ => None,
        };
        return KeyRoute::CommandEdit(edit);
    }
    if self_general_locked(s) {
        if key.code == KeyCode::Esc {
            return KeyRoute::Unlock(PaneId::General);
        }
        return KeyRoute::Forward(PaneId::General);
    }
    if self_agents_locked(s) {
        if key.code == KeyCode::Esc {
            return KeyRoute::Unlock(PaneId::Agents);
        }
        return KeyRoute::Forward(PaneId::Agents);
    }
    let action: Option<Action> = match key.code {
        KeyCode::Char(ch) => {
            if ch == 'h' {
                Some(Action::FocusLeft)
            } else if ch == 'j' {
                Some(Action::FocusDown)
            } else if ch == 'k' {
                Some(Action::FocusUp)
            } else if ch == 'l' {
                Some(Action::FocusRight)
            } else if ch == ':' {
                Some(Action::EnterCommandMode)
            } else {
                None
            }
        },
        KeyCode::Tab => Some(Action::RotateFocus),
        KeyCode::Enter => {
            if s.focused == PaneId::General && s.general_input_mode
                == GeneralInputMode::AppControls {
                Some(Action::EnterGeneralTerminalMode)
            } else if s.focused == PaneId::Agents && s.agents_input_mode
                == AgentsInputMode::PaneControls {
                Some(Action::EnterAgentsTerminalMode)
            } else {
                Some(Action::EnterFullscreen)
            }
        },
        KeyCode::Esc => {
            if s.fullscreen.is_some() {
                Some(Action::ExitFullscreen)
            } else {
                None
            }
        },
        _ => None,
    };
    KeyRoute::App(action)
}

fn self_general_locked(s: &AppState) -> (r: bool)
    ensures
        r == (s.focused == PaneId::General && s.general_input_mode
            == GeneralInputMode::TerminalLocked),
{
    s.focused == PaneId::General && s.general_input_mode == GeneralInputMode::TerminalLocked
}

fn self_agents_locked(s: &AppState) -> (r: bool)
    ensures
        r == (s.focused == PaneId::Agents && s.agents_input_mode == AgentsInputMode::CodexLocked),
{
    s.focused == PaneId::Agents && s.agents_input_mode == AgentsInputMode::CodexLocked
}

/// Routes one key press and performs its effect: quits, edits the command
/// buffer, unlocks or forwards to a locked pane's session, or applies an
/// application action. Exactly one of these happens, as `spec_route_key`
/// decides; a forwarded key changes no application state, and a key consumed
/// by the application reaches no session.
pub fn handle_key(
    state: &mut AppState,
    key: KeyPress,
    general: &mut PtySession,
    agents: &mut PtySession,
) -> (quit: bool)
    requires
        old(state).wf(),
        old(general).wf(),
        old(agents).wf(),
    ensures
        final(state).wf(),
        final(general).wf(),
        final(agents).wf(),
        quit == (spec_route_key(*old(state), key) == KeyRoute::Quit),
        match spec_route_key(*old(state), key) {
            KeyRoute::Quit => *final(state) == *old(state) && *final(general) == *old(general)
                && *final(agents) == *old(agents),
            KeyRoute::CommandEdit(edit) => (match edit {
                Some(action) => spec_apply_rel(*old(state), action, *final(state)),
                None => *final(state) == *old(state),
            }) && *final(general) == *old(general) && *final(agents) == *old(agents),
            KeyRoute::Forward(pane) => {
                &&& *final(state) == *old(state)
                &&& pane == PaneId::General ==> {
                    &&& final(general).parser == old(general).parser
                    &&& final(general).cols == old(general).cols
                    &&& final(general).rows == old(general).rows
                    &&& *final(agents) == *old(agents)
                }
                &&& pane == PaneId::Agents ==> {
                    &&& final(agents).parser == old(agents).parser
                    &&& final(agents).cols == old(agents).cols
                    &&& final(agents).rows == old(agents).rows
                    &&& *final(general) == *old(general)
                }
            },
            KeyRoute::Unlock(pane) => (pane == PaneId::General ==> spec_apply_rel(
                *old(state),
                Action::ExitGeneralTerminalMode,
                *final(state),
            )) && (pane == PaneId::Agents ==> spec_apply_rel(
                *old(state),
                Action::ExitAgentsTerminalMode,
                *final(state),
            )) && *final(general) == *old(general) && *final(agents) == *old(agents),
            KeyRoute::App(app) => (match app {
                Some(action) => spec_apply_rel(*old(state), action, *final(state)),
                None => *final(state) == *old(state),
            }) && *final(general) == *old(general) && *final(agents) == *old(agents),
        },
{
    let route = route_key(state, key);
    match route {
        KeyRoute::Quit => true,
        KeyRoute::CommandEdit(edit) => {
            match edit {
                Some(action) => state.apply(action),
                None => {},
            }
            false
        },
        KeyRoute::Forward(pane) => {
            match pane {
                PaneId::General => {
                    let _ = general.send_key(key);
                },
                PaneId::Agents => {
                    let _ = agents.send_key(key);
                },
                _ => {},
            }
            false
        },
        KeyRoute::Unlock(pane) => {
            match pane {
                PaneId::General => state.apply(Action::ExitGeneralTerminalMode),
                PaneId::Agents => state.apply(Action::ExitAgentsTerminalMode),
                _ => {},
            }
            false
        },
        KeyRoute::App(app) => {
            match app {
                Some(action) => state.apply(action),
                None => {},
            }
            false
        },
    }
}

/// Every key press except Escape that reaches a terminal-locked focused pane
/// (no command entry active, and not the global interrupt, which never
/// reaches a pane) is routed as verbatim passthrough to that pane's session,
/// and never as an application action.
pub proof fn lemma_locked_pane_forwards(s: AppState, key: KeyPress)
    requires
        s.command is None,
        !spec_is_interrupt(key),
        key.code != KeyCode::Esc,
        s.focused == PaneId::General && s.general_input_mode == GeneralInputMode::TerminalLocked
            || s.focused == PaneId::Agents && s.agents_input_mode == AgentsInputMode::CodexLocked,
    ensures
        s.focused == PaneId::General ==> spec_route_key(s, key) == KeyRoute::Forward(
            PaneId::General,
        ),
        s.focused == PaneId::Agents ==> spec_route_key(s, key) == KeyRoute::Forward(PaneId::Agents),
{
}

/// Escape, and only Escape, takes a terminal-locked focused pane back to
/// application controls; and applying the unlock transition does exactly
/// that and nothing else.
pub proof fn lemma_escape_alone_unlocks(s: AppState, key: KeyPress, t: AppState)
    requires
        s.command is None,
        !spec_is_interrupt(key),
        s.focused == PaneId::General,
        s.general_input_mode == GeneralInputMode::TerminalLocked,
    ensures
        (spec_route_key(s, key) == KeyRoute::Unlock(PaneId::General)) <==> key.code == KeyCode::Esc,
        spec_apply_rel(s, Action::ExitGeneralTerminalMode, t) ==> t == (AppState {
            general_input_mode: GeneralInputMode::AppControls,
            ..s
        }),
{
}

/// Escape while the General pane shows application controls has no
/// lock-related effect: whatever action it routes to leaves both panes'
/// input modes exactly as they were.
pub proof fn lemma_escape_without_lock(s: AppState, key: KeyPress, t: AppState)
    requires
        s.command is None,
        !spec_is_interrupt(key),
        key.code == KeyCode::Esc,
        !(s.focused == PaneId::General && s.general_input_mode
            == GeneralInputMode::TerminalLocked),
        !(s.focused == PaneId::Agents && s.agents_input_mode == AgentsInputMode::CodexLocked),
        match spec_route_key(s, key) {
            KeyRoute::App(Some(action)) => spec_apply_rel(s, action, t),
            KeyRoute::App(None) => t == s,
            _ => false,
        },
    ensures
        t.general_input_mode == s.general_input_mode,
        t.agents_input_mode == s.agents_input_mode,
{
}

} // verus!
