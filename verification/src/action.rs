use vstd::prelude::*;

verus! {

/// One application-level state transition, produced by the input router and
/// consumed by [`crate::state::AppState::apply`].
#[derive(Debug, Clone, Copy, PartialEq, Eq, Structural)]
pub enum Action {
    FocusLeft,
    FocusRight,
    FocusUp,
    FocusDown,
    RotateFocus,
    EnterGeneralTerminalMode,
    ExitGeneralTerminalMode,
    EnterAgentsTerminalMode,
    ExitAgentsTerminalMode,
    EnterFullscreen,
    ExitFullscreen,
    EnterCommandMode,
    ExitCommandMode,
    CommandAppend(char),
    CommandBackspace,
    SubmitCommand,
}

impl Action {
    /// True of the five actions that can move focus between panes.
    pub open spec fn is_focus_change(self) -> bool {
        self == Action::FocusLeft || self == Action::FocusRight || self == Action::FocusUp
            || self == Action::FocusDown || self == Action::RotateFocus
    }
}

/// Routing state of the General pane: either the application interprets keys,
/// or every key is forwarded to the embedded terminal.
#[derive(Debug, Clone, Copy, PartialEq, Eq, Structural)]
pub enum GeneralInputMode {
    AppControls,
    TerminalLocked,
}

/// Routing state of the Agents pane, analogous to [`GeneralInputMode`].
#[derive(Debug, Clone, Copy, PartialEq, Eq, Structural)]
pub enum AgentsInputMode {
    PaneControls,
    CodexLocked,
}

} // verus!
