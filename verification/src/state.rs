use vstd::prelude::*;
use crate::action::{Action, AgentsInputMode, GeneralInputMode};
use crate::focus::FocusState;
use crate::motivation::{MotivationState, DEFAULT_IDLE_THRESHOLD_MS, WAKE_PULSE_TTL_MS};
use crate::panes::{
    spec_focus_down, spec_focus_left, spec_focus_right, spec_focus_up, PaneId,
    focus_down, focus_left, focus_right, focus_up,
};
use crate::stats::LocDelta;

verus! {

/// The whole application-level state: pane focus, fullscreen target, the
/// command-entry buffer, per-pane input modes, the motivation pane, focus
/// bookkeeping, and the latest terminal screens.
#[derive(Debug, Clone, PartialEq, Eq)]
pub struct AppState {
    pub focused: PaneId,
    pub fullscreen: Option<PaneId>,
    pub command: Option<String>,
    pub last_command: Option<String>,
    pub motivation: MotivationState,
    pub focus: FocusState,
    pub general_screen: String,
    pub general_input_mode: GeneralInputMode,
    pub agents_screen: String,
    pub agents_input_mode: AgentsInputMode,
    pub agents_cursor_row: u16,
    pub agents_cursor_col: u16,
    pub loc_delta: Option<LocDelta>,
}

/// Where focus moves under a focus-change action.
pub open spec fn spec_new_focus(current: PaneId, action: Action) -> PaneId {
    match action {
        Action::FocusLeft => spec_focus_left(current),
        Action::FocusRight => spec_focus_right(current),
        Action::FocusUp => spec_focus_up(current),
        Action::FocusDown => spec_focus_down(current),
        Action::RotateFocus => current.spec_next(),
        _ => current,
    }
}

/// Exactly how `apply` takes state `s` to state `t` under `action`. Every
/// case pins every field of `t`: the fields an action changes are given by
/// value (or by view, for the command buffer), and all others carry over.
pub open spec fn spec_apply_rel(s: AppState, action: Action, t: AppState) -> bool {
    match action {
        Action::FocusLeft
        | Action::FocusRight
        | Action::FocusUp
        | Action::FocusDown
        | Action::RotateFocus => t == (AppState {
            focused: spec_new_focus(s.focused, action),
            general_input_mode: GeneralInputMode::AppControls,
            agents_input_mode: if spec_new_focus(s.focused, action) != PaneId::Agents {
                AgentsInputMode::PaneControls
            } else {
                s.agents_input_mode
            },
            ..s
        }),
        Action::EnterGeneralTerminalMode => t == (AppState {
            general_input_mode: if s.focused == PaneId::General {
                GeneralInputMode::TerminalLocked
            } else {
                s.general_input_mode
            },
            ..s
        }),
        Action::ExitGeneralTerminalMode => t == (AppState {
            general_input_mode: if s.focused == PaneId::General {
                GeneralInputMode::AppControls
            } else {
                s.general_input_mode
            },
            ..s
        }),
        Action::EnterAgentsTerminalMode => t == (AppState {
            agents_input_mode: if s.focused == PaneId::Agents {
                AgentsInputMode::CodexLocked
            } else {
                s.agents_input_mode
            },
            ..s
        }),
        Action::ExitAgentsTerminalMode => t == (AppState {
            agents_input_mode: if s.focused == PaneId::Agents {
                AgentsInputMode::PaneControls
            } else {
                s.agents_input_mode
            },
            ..s
        }),
        Action::EnterFullscreen => t == (AppState { fullscreen: Some(s.focused), ..s }),
        Action::ExitFullscreen => t == (AppState { fullscreen: None, ..s }),
        Action::EnterCommandMode => {
            &&& t.command is Some
            &&& t.command->0@ == Seq::<char>::empty()
            &&& t == (AppState { command: t.command, ..s })
        },
        Action::ExitCommandMode => t == (AppState { command: None, ..s }),
        Action::CommandAppend(ch) => match s.command {
            Some(buffer) => {
                &&& t.command is Some
                &&& t.command->0@ == buffer@.push(ch)
                &&& t == (AppState { command: t.command, ..s })
            },
            None => t == s,
        },
        Action::CommandBackspace => match s.command {
            Some(buffer) => {
                &&& t.command is Some
                &&& t.command->0@ == (if buffer@.len() == 0 {
                    buffer@
                } else {
                    buffer@.drop_last()
                })
                &&& t == (AppState { command: t.command, ..s })
            },
            None => t == s,
        },
        Action::SubmitCommand => match s.command {
            Some(buffer) => t == (AppState { command: None, last_command: Some(buffer), ..s }),
            None => t == s,
        },
    }
}

impl AppState {
    pub open spec fn wf(&self) -> bool {
        self.motivation.wf()
    }

    /// The state the dashboard starts in: Motivation focused, nothing
    /// fullscreen, no command entry, both terminal panes unlocked.
    pub fn new_for_test() -> (r: Self)
        ensures
            r.wf(),
            r.focused == PaneId::Motivation,
            r.fullscreen is None,
            r.command is None,
            r.last_command is None,
            r.general_input_mode == GeneralInputMode::AppControls,
            r.agents_input_mode == AgentsInputMode::PaneControls,
            r.general_screen@ == Seq::<char>::empty(),
            r.agents_screen@ == Seq::<char>::empty(),
            r.agents_cursor_row == 0,
            r.agents_cursor_col == 0,
            r.loc_delta is None,
            !r.focus.spec_is_active(),
    {
        AppState {
            focused: PaneId::Motivation,
            fullscreen: None,
            command: None,
            last_command: None,
            motivation: MotivationState::new(DEFAULT_IDLE_THRESHOLD_MS),
            focus: FocusState::new_for_test(),
            general_screen: String::new(),
            general_input_mode: GeneralInputMode::AppControls,
            agents_screen: String::new(),
            agents_input_mode: AgentsInputMode::PaneControls,
            agents_cursor_row: 0,
            agents_cursor_col: 0,
            loc_delta: None,
        }
    }

    /// The application-state transition function: all transitions are pure
    /// state-to-state steps, described exactly by [`spec_apply_rel`].
    pub fn apply(&mut self, action: Action)
        ensures
            spec_apply_rel(*old(self), action, *final(self)),
            old(self).wf() ==> final(self).wf(),
    {
        match action {
            Action::FocusLeft => {
                self.focused = focus_left(self.focused);
                self.after_focus_change();
            },
            Action::FocusRight => {
                self.focused = focus_right(self.focused);
                self.after_focus_change();
            },
            Action::FocusUp => {
                self.focused = focus_up(self.focused);
                self.after_focus_change();
            },
            Action::FocusDown => {
                self.focused = focus_down(self.focused);
                self.after_focus_change();
            },
            Action::RotateFocus => {
                self.focused = self.focused.next();
                self.after_focus_change();
            },
            Action::EnterGeneralTerminalMode => {
                if self.focused == PaneId::General {
                    self.general_input_mode = GeneralInputMode::TerminalLocked;
                }
            },
            Action::ExitGeneralTerminalMode => {
                if self.focused == PaneId::General {
                    self.general_input_mode = GeneralInputMode::AppControls;
                }
            },
            Action::EnterAgentsTerminalMode => {
                if self.focused == PaneId::Agents {
                    self.agents_input_mode = AgentsInputMode::CodexLocked;
                }
            },
            Action::ExitAgentsTerminalMode => {
                if self.focused == PaneId::Agents {
                    self.agents_input_mode = AgentsInputMode::PaneControls;
                }
            },
            Action::EnterFullscreen => {
                self.fullscreen = Some(self.focused);
            },
            Action::ExitFullscreen => {
                self.fullscreen = None;
            },
            Action::EnterCommandMode => {
                self.command = Some(String::new());
            },
            Action::ExitCommandMode => {
                self.command = None;
            },
            Action::CommandAppend(ch) => {
                match &mut self.command {
                    Some(buffer) => {
                        buffer.push(ch);
                    },
                    None => {},
                }
            },
            Action::CommandBackspace => {
                match &mut self.command {
                    Some(buffer) => {
                        buffer.pop();
                    },
                    None => {},
                }
            },
            Action::SubmitCommand => {
                match self.command.take() {
                    Some(buffer) => {
                        self.command = None;
                        self.last_command = Some(buffer);
                    },
                    None => {},
                }
            },
        }
    }

    /// Every focus change drops the General pane back to application
    /// controls, and drops the Agents pane back too unless it is the newly
    /// focused pane.
    fn after_focus_change(&mut self)
        ensures
            *final(self) == (AppState {
                general_input_mode: GeneralInputMode::AppControls,
                agents_input_mode: if old(self).focused != PaneId::Agents {
                    AgentsInputMode::PaneControls
                } else {
                    old(self).agents_input_mode
                },
                ..*old(self)
            }),
    {
        self.general_input_mode = GeneralInputMode::AppControls;
        if self.focused != PaneId::Agents {
            self.agents_input_mode = AgentsInputMode::PaneControls;
        }
    }

    pub fn on_activity(&mut self)
        requires
            old(self).wf(),
        ensures
            final(self).wf(),
            *final(self) == (AppState { motivation: final(self).motivation, ..*old(self) }),
            final(self).motivation.idle.elapsed_ms == 0,
            final(self).motivation.idle.threshold_ms == old(self).motivation.idle.threshold_ms,
            final(self).motivation.current_tone == if old(self).motivation.idle.spec_is_idle() {
                old(self).motivation.default_tone
            } else {
                old(self).motivation.current_tone
            },
            final(self).motivation.default_tone == old(self).motivation.default_tone,
            old(self).motivation.idle.spec_is_idle() ==> final(self).motivation.wake_pulse_remaining_ms
                == WAKE_PULSE_TTL_MS,
            !old(self).motivation.idle.spec_is_idle() ==> final(self).motivation == (MotivationState {
                idle: final(self).motivation.idle,
                ..old(self).motivation
            }),
    {
        self.motivation.on_activity();
    }

    pub fn tick(&mut self, dt_ms: u64)
        requires
            old(self).wf(),
        ensures
            final(self).wf(),
            *final(self) == (AppState { motivation: final(self).motivation, ..*old(self) }),
    {
        self.motivation.tick(dt_ms);
    }
}

/// After any focus-change action, the pane that lost focus is never left in
/// a locked input mode: the General pane always returns to application
/// controls, and the Agents pane returns to pane controls whenever it is not
/// the newly focused pane.
pub proof fn lemma_focus_change_unlocks(s: AppState, action: Action, t: AppState)
    requires
        action.is_focus_change(),
        spec_apply_rel(s, action, t),
    ensures
        t.general_input_mode == GeneralInputMode::AppControls,
        t.focused != PaneId::Agents ==> t.agents_input_mode == AgentsInputMode::PaneControls,
        s.focused == PaneId::General && t.focused != PaneId::General
            ==> t.general_input_mode != GeneralInputMode::TerminalLocked,
        s.focused == PaneId::Agents && t.focused != PaneId::Agents ==> t.agents_input_mode
            != AgentsInputMode::CodexLocked,
{
}

} // verus!
