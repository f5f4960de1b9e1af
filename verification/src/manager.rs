use vstd::prelude::*;
use crate::panes::PaneId;
use crate::session::{PtyPump, PtySession, SpawnError};
use crate::state::AppState;

verus! {

/// The diagnostic line injected into a fallback shell when the agent program
/// cannot be launched, so the pane explains itself instead of staying blank.
pub const AGENTS_FALLBACK_NOTICE: &'static str =
    "echo 'codex not found; install it, then restart'\n";

/// The PTY size a pane is owed: the full terminal when the pane is the
/// fullscreen target, half of it otherwise, minus a fixed border inset of
/// two, floored at one in each dimension.
pub open spec fn spec_pane_pty_size(
    fullscreen: Option<PaneId>,
    pane: PaneId,
    term_cols: u16,
    term_rows: u16,
) -> (u16, u16) {
    let base_cols: int = if fullscreen == Some(pane) {
        term_cols as int
    } else {
        term_cols as int / 2
    };
    let base_rows: int = if fullscreen == Some(pane) {
        term_rows as int
    } else {
        term_rows as int / 2
    };
    (
        (if base_cols - 2 >= 1 {
            base_cols - 2
        } else {
            1
        }) as u16,
        (if base_rows - 2 >= 1 {
            base_rows - 2
        } else {
            1
        }) as u16,
    )
}

/// Computes a pane's target PTY size from the terminal size and the
/// fullscreen state; always at least 1 x 1.
pub fn pane_pty_size(state: &AppState, term_cols: u16, term_rows: u16, pane_id: PaneId) -> (r: (
    u16,
    u16,
))
    ensures
        r == spec_pane_pty_size(state.fullscreen, pane_id, term_cols, term_rows),
        r.0 >= 1,
        r.1 >= 1,
{
    let fullscreen_here = match state.fullscreen {
        Some(id) => id == pane_id,
        None => false,
    };
    let base_cols: u16 = if fullscreen_here {
        term_cols
    } else {
        term_cols / 2
    };
    let base_rows: u16 = if fullscreen_here {
        term_rows
    } else {
        term_rows / 2
    };
    let cols: u16 = if base_cols >= 3 {
        base_cols - 2
    } else {
        1
    };
    let rows: u16 = if base_rows >= 3 {
        base_rows - 2
    } else {
        1
    };
    (cols, rows)
}

/// The General pane's target PTY size.
pub fn general_pty_size(state: &AppState, term_cols: u16, term_rows: u16) -> (r: (u16, u16))
    ensures
        r == spec_pane_pty_size(state.fullscreen, PaneId::General, term_cols, term_rows),
        r.0 >= 1,
        r.1 >= 1,
{
    pane_pty_size(state, term_cols, term_rows, PaneId::General)
}

/// Whether a computed size differs from the size most recently applied to
/// the session, which is the one condition under which the manager resizes.
pub open spec fn spec_needs_resize(s: SizedSession, cols: u16, rows: u16) -> bool {
    cols != s.last_cols || rows != s.last_rows
}

/// One managed session: the PTY session itself and the size most recently
/// requested for it, kept so that repeated identical geometry issues no
/// redundant OS resize calls.
pub struct SizedSession {
    pub session: PtySession,
    pub last_cols: u16,
    pub last_rows: u16,
}

impl SizedSession {
    pub open spec fn wf(&self) -> bool {
        self.session.wf()
    }

    pub fn new(session: PtySession, cols: u16, rows: u16) -> (r: Self)
        requires
            session.wf(),
        ensures
            r.wf(),
            r.last_cols == cols,
            r.last_rows == rows,
            r.session == session,
    {
        SizedSession { session, last_cols: cols, last_rows: rows }
    }

    /// Brings the session to the computed target size: a resize is issued if
    /// and only if the target differs from the size last applied; repeated
    /// identical geometry after the first call is a no-op.
    pub fn sync_size(&mut self, cols: u16, rows: u16) -> (resized: bool)
        requires
            old(self).wf(),
        ensures
            final(self).wf(),
            resized == spec_needs_resize(*old(self), cols, rows),
            final(self).last_cols == cols,
            final(self).last_rows == rows,
            !resized ==> *final(self) == *old(self),
    {
        if cols != self.last_cols || rows != self.last_rows {
            let _ = self.session.resize(cols, rows);
            self.last_cols = cols;
            self.last_rows = rows;
            true
        } else {
            false
        }
    }
}

/// Once a target size has been applied, re-submitting the same target never
/// resizes again: after any `sync_size(cols, rows)`, whose contract leaves
/// `last_cols`/`last_rows` at the target, a second call with the same target
/// finds nothing to do.
pub proof fn lemma_resize_deduplicates(t: SizedSession, cols: u16, rows: u16)
    requires
        t.last_cols == cols,
        t.last_rows == rows,
    ensures
        !spec_needs_resize(t, cols, rows),
{
}

/// Spawns the agent program for the Agents pane; when it cannot be launched
/// (for instance, not installed), falls back to a plain shell sized
/// identically and injects a diagnostic line so the pane shows an
/// explanation instead of staying blank. The second component tells the
/// caller whether the fallback was taken.
pub fn spawn_agents_or_fallback(
    program: &str,
    args: &Vec<String>,
    shell: &str,
    cols: u16,
    rows: u16,
) -> (r: Result<(PtySession, PtyPump, bool), SpawnError>)
    requires
        cols >= 1,
        rows >= 1,
    ensures
        match r {
            Ok((session, _, _)) => session.wf() && session.cols == cols && session.rows == rows,
            Err(_) => true,
        },
{
    match PtySession::spawn_command(program, args, cols, rows) {
        Ok((session, pump)) => Ok((session, pump, false)),
        Err(_) => {
            match PtySession::spawn(shell, cols, rows) {
                Ok((mut fallback, pump)) => {
                    let _ = fallback.send_paste(AGENTS_FALLBACK_NOTICE);
                    Ok((fallback, pump, true))
                },
                Err(e) => Err(e),
            }
        },
    }
}

} // verus!
