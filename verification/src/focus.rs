use vstd::prelude::*;

verus! {

/// Focus-session bookkeeping: whether a focus session is running (and since
/// when), how many seconds of focus were logged today, and the current streak.
/// Instants and durations are carried as plain milliseconds.
#[derive(Debug, Clone, PartialEq, Eq)]
pub struct FocusState {
    pub active_since_ms: Option<u64>,
    pub focus_seconds_today: u64,
    pub streak_days: u32,
}

impl FocusState {
    pub open spec fn spec_is_active(&self) -> bool {
        self.active_since_ms is Some
    }

    pub open spec fn spec_focus_seconds_today(&self) -> u64 {
        self.focus_seconds_today
    }

    pub open spec fn spec_streak_days(&self) -> u32 {
        self.streak_days
    }

    pub fn new_for_test() -> (r: Self)
        ensures
            !r.spec_is_active(),
            r.spec_focus_seconds_today() == 0,
            r.spec_streak_days() == 0,
    {
        Self { active_since_ms: None, focus_seconds_today: 0, streak_days: 0 }
    }

    pub fn is_active(&self) -> (r: bool)
        ensures
            r == self.spec_is_active(),
    {
        self.active_since_ms.is_some()
    }

    /// Starts a focus session at the given instant; a session that is already
    /// running keeps its earlier start instant.
    pub fn start(&mut self, now_ms: u64)
        ensures
            final(self).spec_is_active(),
            old(self).spec_is_active() ==> *final(self) == *old(self),
            !old(self).spec_is_active() ==> *final(self) == (FocusState {
                active_since_ms: Some(now_ms),
                ..*old(self)
            }),
    {
        if self.active_since_ms.is_none() {
            self.active_since_ms = Some(now_ms);
        }
    }

    /// Stops a running focus session and returns its length in milliseconds
    /// (zero when the clock moved backwards); `None` when no session ran.
    pub fn stop(&mut self, now_ms: u64) -> (r: Option<u64>)
        ensures
            !final(self).spec_is_active(),
            *final(self) == (FocusState { active_since_ms: None, ..*old(self) }),
            match old(self).active_since_ms {
                Some(since) => r == Some((if now_ms >= since {
                    (now_ms - since) as u64
                } else {
                    0u64
                })),
                None => r is None,
            },
    {
        match self.active_since_ms {
            Some(since) => {
                self.active_since_ms = None;
                if now_ms >= since {
                    Some(now_ms - since)
                } else {
                    Some(0)
                }
            },
            None => None,
        }
    }

    pub fn focus_seconds_today(&self) -> (r: u64)
        ensures
            r == self.spec_focus_seconds_today(),
    {
        self.focus_seconds_today
    }

    pub fn add_focus_seconds_today(&mut self, seconds: u64)
        ensures
            *final(self) == (FocusState {
                focus_seconds_today: if old(self).focus_seconds_today + seconds > u64::MAX {
                    u64::MAX
                } else {
                    (old(self).focus_seconds_today + seconds) as u64
                },
                ..*old(self)
            }),
    {
        self.focus_seconds_today = self.focus_seconds_today.saturating_add(seconds);
    }

    pub fn set_focus_seconds_today(&mut self, seconds: u64)
        ensures
            *final(self) == (FocusState { focus_seconds_today: seconds, ..*old(self) }),
    {
        self.focus_seconds_today = seconds;
    }

    pub fn streak_days(&self) -> (r: u32)
        ensures
            r == self.spec_streak_days(),
    {
        self.streak_days
    }

    pub fn set_streak_days(&mut self, days: u32)
        ensures
            *final(self) == (FocusState { streak_days: days, ..*old(self) }),
    {
        self.streak_days = days;
    }
}

} // verus!
