pub mod action;
pub mod big_text;
pub mod command;
pub mod config;
pub mod display;
pub mod focus;
pub mod keys;
pub mod manager;
pub mod motivation;
pub mod motivation_anim;
pub mod panes;
pub mod particles;
pub mod router;
pub mod session;
pub mod state;
pub mod stats;
pub mod strings;
pub mod text;

pub use action::{Action, AgentsInputMode, GeneralInputMode};
pub use command::FocusCommand;
pub use config::AppConfig;
pub use focus::FocusState;
pub use keys::{KeyCode, KeyPress};
pub use manager::SizedSession;
pub use motivation::{IdleTracker, MotivationState, Tone, DAILY_FOCUS_GOAL_SECS};
pub use panes::PaneId;
pub use router::KeyRoute;
pub use session::{PtyPump, PtySession, PtySnapshot, ResizeError, SpawnError, WriteError};
pub use state::AppState;
pub use stats::LocDelta;
pub use strings::Language;
