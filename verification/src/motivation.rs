use vstd::prelude::*;
use crate::motivation_anim::{BannerPulse, QuoteTypewriter, Ticker};
use crate::particles::{ParticleField, Seed};

verus! {

/// Voice of the motivation pane; idleness switches to Brutal, activity
/// restores the default.
#[derive(Debug, Clone, Copy, PartialEq, Eq, Structural)]
pub enum Tone {
    Brutal,
    Encouraging,
    Emperor,
}

pub const DEFAULT_ROTATE_EVERY_MS: u64 = 15_000;

pub const DEFAULT_IDLE_THRESHOLD_MS: u64 = 60_000;

pub const BANNER_PULSE_PERIOD_MS: u64 = 900;

pub const QUOTE_TYPEWRITER_SPEED_CPS: u32 = 50;

pub const TICKER_SPEED_CPS: u32 = 18;

pub const DAILY_FOCUS_GOAL_SECS: u64 = 2 * 60 * 60;

pub const DEFAULT_TICKER_TEXT: &'static str =
    "LOCK IN \u{2022} NO MERCY \u{2022} COMPOUND TODAY \u{2022} STAY DANGEROUS \u{2022} ONE MORE REP \u{2022}";

pub const PARTICLE_COUNT: usize = 48;

pub const BURST_TTL_MS: u64 = 900;

pub const COOL_DOWN_TTL_MS: u64 = 600;

pub const WAKE_PULSE_TTL_MS: u64 = 700;

/// How many quotes each tone carries.
pub open spec fn spec_quote_count(tone: Tone) -> nat {
    match tone {
        Tone::Brutal => 9,
        Tone::Encouraging => 8,
        Tone::Emperor => 8,
    }
}

pub fn quote_count(tone: Tone) -> (r: usize)
    ensures
        r == spec_quote_count(tone),
        r >= 1,
{
    match tone {
        Tone::Brutal => 9,
        Tone::Encouraging => 8,
        Tone::Emperor => 8,
    }
}

/// The text of each quote, by tone and rotation index (the same literals
/// `quote_at` returns).
pub open spec fn spec_quote(tone: Tone, index: int) -> Seq<char> {
    match tone {
        Tone::Brutal => {
            if index == 0 {
                "Your biological clock advances whether you code or not."@
            } else if index == 1 {
                "Every unfocused hour is stolen from your future children."@
            } else if index == 2 {
                "Comfort is the tax you pay for mediocrity."@
            } else if index == 3 {
                "Entropy wins unless you resist it."@
            } else if index == 4 {
                "Your body is decaying in the background. Work anyway."@
            } else if index == 5 {
                "You will not get these years back. Stop negotiating."@
            } else if index == 6 {
                "If you drift today, your future self will pay interest."@
            } else if index == 7 {
                "The calendar doesn't care about your mood."@
            } else {
                "A soft day is a vote for a smaller life."@
            }
        },
        Tone::Encouraging => {
            if index == 0 {
                "You are building something compounding."@
            } else if index == 1 {
                "Consistency is intelligence applied daily."@
            } else if index == 2 {
                "One disciplined day changes your trajectory."@
            } else if index == 3 {
                "You are closer than you think."@
            } else if index == 4 {
                "Keep the chain unbroken. The future is watching."@
            } else if index == 5 {
                "Deep work is a promise you keep to your descendants."@
            } else if index == 6 {
                "Small clean sessions become a life you recognize."@
            } else {
                "Earn tomorrow by honoring the next 60 minutes."@
            }
        },
        Tone::Emperor => {
            if index == 0 {
                "You were not built for small outcomes."@
            } else if index == 1 {
                "Discipline is sovereignty."@
            } else if index == 2 {
                "AUGUSTINUS does not drift."@
            } else if index == 3 {
                "Legacy is constructed in silence."@
            } else if index == 4 {
                "Your name can outlive your biology. Act like it."@
            } else if index == 5 {
                "The empire is built in the hours nobody applauds."@
            } else if index == 6 {
                "You don't need permission to become inevitable."@
            } else {
                "Let the work be royal. Let the routine be law."@
            }
        },
    }
}

/// The quote shown for a tone at a rotation index.
pub fn quote_at(tone: Tone, index: usize) -> (r: &'static str)
    requires
        index < spec_quote_count(tone),
    ensures
        r@ == spec_quote(tone, index as int),
{
    match tone {
        Tone::Brutal => {
            if index == 0 {
                "Your biological clock advances whether you code or not."
            } else if index == 1 {
                "Every unfocused hour is stolen from your future children."
            } else if index == 2 {
                "Comfort is the tax you pay for mediocrity."
            } else if index == 3 {
                "Entropy wins unless you resist it."
            } else if index == 4 {
                "Your body is decaying in the background. Work anyway."
            } else if index == 5 {
                "You will not get these years back. Stop negotiating."
            } else if index == 6 {
                "If you drift today, your future self will pay interest."
            } else if index == 7 {
                "The calendar doesn't care about your mood."
            } else {
                "A soft day is a vote for a smaller life."
            }
        },
        Tone::Encouraging => {
            if index == 0 {
                "You are building something compounding."
            } else if index == 1 {
                "Consistency is intelligence applied daily."
            } else if index == 2 {
                "One disciplined day changes your trajectory."
            } else if index == 3 {
                "You are closer than you think."
            } else if index == 4 {
                "Keep the chain unbroken. The future is watching."
            } else if index == 5 {
                "Deep work is a promise you keep to your descendants."
            } else if index == 6 {
                "Small clean sessions become a life you recognize."
            } else {
                "Earn tomorrow by honoring the next 60 minutes."
            }
        },
        Tone::Emperor => {
            if index == 0 {
                "You were not built for small outcomes."
            } else if index == 1 {
                "Discipline is sovereignty."
            } else if index == 2 {
                "AUGUSTINUS does not drift."
            } else if index == 3 {
                "Legacy is constructed in silence."
            } else if index == 4 {
                "Your name can outlive your biology. Act like it."
            } else if index == 5 {
                "The empire is built in the hours nobody applauds."
            } else if index == 6 {
                "You don't need permission to become inevitable."
            } else {
                "Let the work be royal. Let the routine be law."
            }
        },
    }
}

/// Tracks how long since the last user activity and whether the threshold
/// was crossed.
#[derive(Debug, Clone, Copy, PartialEq, Eq, Structural)]
pub struct IdleTracker {
    pub threshold_ms: u64,
    pub elapsed_ms: u64,
}

impl IdleTracker {
    pub open spec fn spec_is_idle(&self) -> bool {
        self.elapsed_ms >= self.threshold_ms
    }

    pub fn new(threshold_ms: u64) -> (r: Self)
        ensures
            r == (IdleTracker { threshold_ms, elapsed_ms: 0u64 }),
    {
        IdleTracker { threshold_ms, elapsed_ms: 0 }
    }

    pub fn on_activity(&mut self)
        ensures
            *final(self) == (IdleTracker { elapsed_ms: 0u64, ..*old(self) }),
    {
        self.elapsed_ms = 0;
    }

    pub fn advance(&mut self, dt_ms: u64)
        ensures
            *final(self) == (IdleTracker {
                elapsed_ms: if old(self).elapsed_ms + dt_ms > u64::MAX {
                    u64::MAX
                } else {
                    (old(self).elapsed_ms + dt_ms) as u64
                },
                ..*old(self)
            }),
    {
        self.elapsed_ms = self.elapsed_ms.saturating_add(dt_ms);
    }

    pub fn is_idle(&self) -> (r: bool)
        ensures
            r == self.spec_is_idle(),
    {
        self.elapsed_ms >= self.threshold_ms
    }
}

/// The index the rotation picks after `last` in a list of `count` quotes:
/// the next index round robin, skipping one more when that would repeat the
/// previous quote.
pub open spec fn spec_next_quote_index(last: Option<usize>, count: nat) -> int
    recommends
        count >= 1,
{
    let first = match last {
        Some(i) => (i + 1) % (count as int),
        None => 0int,
    };
    if last is Some && count > 1 && first == last->0 {
        (first + 1) % (count as int)
    } else {
        first
    }
}

/// The rotation index after `n` further rotations from `last` in a list of
/// `count` quotes.
pub open spec fn spec_rotate_n(last: Option<usize>, count: nat, n: nat) -> Option<usize>
    decreases n,
{
    if n == 0 {
        last
    } else {
        Some(spec_next_quote_index(spec_rotate_n(last, count, (n - 1) as nat), count) as usize)
    }
}

/// All state behind the motivation pane: the tone and quote rotation, idle
/// tracking, and the banner, typewriter, ticker and particle animations.
#[derive(Debug, Clone, PartialEq, Eq)]
pub struct MotivationState {
    pub default_tone: Tone,
    pub current_tone: Tone,
    pub rotate_every_ms: u64,
    pub rotate_elapsed_ms: u64,
    pub last_quote_index: Option<usize>,
    pub quote: &'static str,
    pub idle: IdleTracker,
    pub pulse: BannerPulse,
    pub typewriter: QuoteTypewriter,
    pub ticker: Ticker,
    pub particles: ParticleField,
    pub burst_remaining_ms: u64,
    pub cool_down_remaining_ms: u64,
    pub wake_pulse_remaining_ms: u64,
    pub ticker_width: u16,
    pub ticker_window: String,
}

impl MotivationState {
    pub open spec fn wf(&self) -> bool {
        &&& self.rotate_every_ms >= 1
        &&& match self.last_quote_index {
            Some(i) => i < spec_quote_count(self.current_tone) && self.quote@ == spec_quote(
                self.current_tone,
                i as int,
            ),
            None => true,
        }
        &&& self.typewriter.wf()
        &&& self.particles.wf()
    }

    pub fn new(idle_threshold_ms: u64) -> (r: Self)
        ensures
            r.wf(),
            r.default_tone == Tone::Encouraging,
            r.current_tone == Tone::Encouraging,
            r.rotate_every_ms == DEFAULT_ROTATE_EVERY_MS,
            r.rotate_elapsed_ms == 0,
            r.last_quote_index == Some(0usize),
            r.idle == (IdleTracker { threshold_ms: idle_threshold_ms, elapsed_ms: 0u64 }),
            r.quote@ == spec_quote(Tone::Encouraging, 0),
            r.typewriter.text@ == spec_quote(Tone::Encouraging, 0),
            r.typewriter.visible == 0,
            r.ticker.text@ == DEFAULT_TICKER_TEXT@,
            r.ticker_window@ == Seq::<char>::empty(),
            r.ticker_width == 0,
            r.burst_remaining_ms == 0,
            r.cool_down_remaining_ms == 0,
            r.wake_pulse_remaining_ms == 0,
    {
        let default_tone = Tone::Encouraging;
        let quote = quote_at(default_tone, 0);
        let mut typewriter = QuoteTypewriter::new(QUOTE_TYPEWRITER_SPEED_CPS);
        typewriter.set_text(quote);
        let mut ticker = Ticker::new(TICKER_SPEED_CPS);
        ticker.set_text(DEFAULT_TICKER_TEXT);
        MotivationState {
            default_tone,
            current_tone: default_tone,
            rotate_every_ms: DEFAULT_ROTATE_EVERY_MS,
            rotate_elapsed_ms: 0,
            last_quote_index: Some(0),
            quote,
            idle: IdleTracker::new(idle_threshold_ms),
            pulse: BannerPulse::new(BANNER_PULSE_PERIOD_MS),
            typewriter,
            ticker,
            particles: ParticleField::new(Seed(1), 1, 1, PARTICLE_COUNT),
            burst_remaining_ms: 0,
            cool_down_remaining_ms: 0,
            wake_pulse_remaining_ms: 0,
            ticker_width: 0,
            ticker_window: String::new(),
        }
    }

    pub fn quote(&self) -> (r: &'static str)
        ensures
            r == self.quote,
    {
        self.quote
    }

    pub fn tone(&self) -> (r: Tone)
        ensures
            r == self.current_tone,
    {
        self.current_tone
    }

    /// User activity: resets the idle clock; when that wakes the tracker
    /// from idle, the wake pulse fires (with its 16-particle burst) and the
    /// default tone is restored. Without a wake, only the idle clock moves.
    pub fn on_activity(&mut self)
        requires
            old(self).wf(),
        ensures
            final(self).wf(),
            final(self).idle == (IdleTracker { elapsed_ms: 0u64, ..old(self).idle }),
            !old(self).idle.spec_is_idle() ==> *final(self) == (MotivationState {
                idle: final(self).idle,
                ..*old(self)
            }),
            old(self).idle.spec_is_idle() ==> {
                &&& final(self).current_tone == old(self).default_tone
                &&& final(self).default_tone == old(self).default_tone
                &&& final(self).wake_pulse_remaining_ms == WAKE_PULSE_TTL_MS
                &&& final(self).burst_remaining_ms == old(self).burst_remaining_ms
                &&& final(self).cool_down_remaining_ms == old(self).cool_down_remaining_ms
                &&& final(self).rotate_every_ms == old(self).rotate_every_ms
                &&& final(self).ticker == old(self).ticker
                &&& final(self).ticker_window == old(self).ticker_window
                &&& final(self).particles.particles == old(self).particles.particles
                &&& final(self).particles.bursts@.len() == old(self).particles.bursts@.len() + 16
                &&& (old(self).current_tone == old(self).default_tone ==> {
                    &&& final(self).last_quote_index == old(self).last_quote_index
                    &&& final(self).quote == old(self).quote
                })
                &&& (old(self).current_tone != old(self).default_tone ==> final(self).last_quote_index
                    == Some(0usize))
            },
    {
        let was_idle = self.idle.is_idle();
        self.idle.on_activity();
        if was_idle {
            self.on_wake_from_idle();
            let tone = self.default_tone;
            self.set_tone(tone);
        }
    }

    /// One animation tick: ages the idle clock (switching to the Brutal tone
    /// on the idle edge), rotates the quote once per elapsed rotation period,
    /// advances all animations, refreshes the ticker window and decays the
    /// effect timers.
    #[verifier::loop_isolation(false)]
    pub fn tick(&mut self, dt_ms: u64)
        requires
            old(self).wf(),
        ensures
            final(self).wf(),
            final(self).rotate_every_ms == old(self).rotate_every_ms,
            ({
                let advanced = if old(self).rotate_elapsed_ms + dt_ms > u64::MAX {
                    u64::MAX as int
                } else {
                    old(self).rotate_elapsed_ms + dt_ms
                };
                let every = old(self).rotate_every_ms as int;
                let became_idle = !old(self).idle.spec_is_idle() && final(self).idle.spec_is_idle();
                let mid_last = if became_idle && old(self).current_tone != Tone::Brutal {
                    Some(0usize)
                } else {
                    old(self).last_quote_index
                };
                let tone_now = if became_idle {
                    Tone::Brutal
                } else {
                    old(self).current_tone
                };
                &&& final(self).rotate_elapsed_ms == advanced % every
                &&& final(self).last_quote_index == spec_rotate_n(
                    mid_last,
                    spec_quote_count(tone_now),
                    ((advanced / every) as nat),
                )
            }),
            final(self).idle.threshold_ms == old(self).idle.threshold_ms,
            final(self).idle.elapsed_ms == if old(self).idle.elapsed_ms + dt_ms > u64::MAX {
                u64::MAX
            } else {
                (old(self).idle.elapsed_ms + dt_ms) as u64
            },
            final(self).current_tone == if !old(self).idle.spec_is_idle()
                && final(self).idle.spec_is_idle() {
                Tone::Brutal
            } else {
                old(self).current_tone
            },
            final(self).default_tone == old(self).default_tone,
            final(self).burst_remaining_ms == if old(self).burst_remaining_ms >= dt_ms {
                (old(self).burst_remaining_ms - dt_ms) as u64
            } else {
                0u64
            },
            final(self).cool_down_remaining_ms == if old(self).cool_down_remaining_ms >= dt_ms {
                (old(self).cool_down_remaining_ms - dt_ms) as u64
            } else {
                0u64
            },
            final(self).wake_pulse_remaining_ms == if old(self).wake_pulse_remaining_ms >= dt_ms {
                (old(self).wake_pulse_remaining_ms - dt_ms) as u64
            } else {
                0u64
            },
    {
        let was_idle = self.idle.is_idle();
        self.idle.advance(dt_ms);
        let is_idle = self.idle.is_idle();
        if !was_idle && is_idle {
            self.set_tone(Tone::Brutal);
        }

        self.rotate_elapsed_ms = self.rotate_elapsed_ms.saturating_add(dt_ms);
        let ghost pre_rotation = *self;
        let ghost advanced = self.rotate_elapsed_ms as int;
        let ghost every = self.rotate_every_ms as int;
        let ghost mut rotations: nat = 0;
        while self.rotate_elapsed_ms >= self.rotate_every_ms
            invariant
                self.wf(),
                self.idle == pre_rotation.idle,
                self.current_tone == pre_rotation.current_tone,
                self.default_tone == old(self).default_tone,
                self.rotate_every_ms == old(self).rotate_every_ms,
                self.burst_remaining_ms == old(self).burst_remaining_ms,
                self.cool_down_remaining_ms == old(self).cool_down_remaining_ms,
                self.wake_pulse_remaining_ms == old(self).wake_pulse_remaining_ms,
                self.ticker_width == old(self).ticker_width,
                self.last_quote_index == spec_rotate_n(
                    pre_rotation.last_quote_index,
                    spec_quote_count(pre_rotation.current_tone),
                    rotations,
                ),
                advanced == rotations * every + self.rotate_elapsed_ms,
            decreases self.rotate_elapsed_ms,
        {
            self.rotate_elapsed_ms = self.rotate_elapsed_ms - self.rotate_every_ms;
            self.rotate_quote();
            proof {
                rotations = rotations + 1;
                assert(rotations * every == (rotations - 1) * every + every) by (nonlinear_arith);
            }
        }
        proof {
            vstd::arithmetic::div_mod::lemma_fundamental_div_mod_converse_div(
                advanced,
                every,
                rotations as int,
                self.rotate_elapsed_ms as int,
            );
            vstd::arithmetic::div_mod::lemma_fundamental_div_mod_converse_mod(
                advanced,
                every,
                rotations as int,
                self.rotate_elapsed_ms as int,
            );
        }

        self.pulse.tick(dt_ms);
        self.typewriter.tick(dt_ms);
        self.ticker.tick(dt_ms);
        self.particles.tick(dt_ms);

        if self.ticker_width > 0 {
            self.ticker_window = self.ticker.window(self.ticker_width);
        }

        self.burst_remaining_ms = self.burst_remaining_ms.saturating_sub(dt_ms);
        self.cool_down_remaining_ms = self.cool_down_remaining_ms.saturating_sub(dt_ms);
        self.wake_pulse_remaining_ms = self.wake_pulse_remaining_ms.saturating_sub(dt_ms);
    }

    pub fn set_particle_bounds(&mut self, width: u16, height: u16)
        requires
            old(self).wf(),
        ensures
            final(self).wf(),
            final(self).current_tone == old(self).current_tone,
    {
        self.particles.resize(width, height);
    }

    pub fn set_ticker_width(&mut self, width: u16)
        requires
            old(self).wf(),
        ensures
            final(self).wf(),
            final(self).ticker_width == width,
    {
        if self.ticker_width == width {
            return ;
        }
        self.ticker_width = width;
        self.ticker_window = self.ticker.window(width);
    }

    pub fn ticker_window(&self) -> (r: &str)
        ensures
            r@ == self.ticker_window@,
    {
        self.ticker_window.as_str()
    }

    /// Starting a focus session arms the burst timer and launches 24 burst
    /// particles; nothing else (tone, quote, idle state) changes.
    pub fn on_focus_start(&mut self)
        requires
            old(self).wf(),
        ensures
            final(self).wf(),
            *final(self) == (MotivationState {
                burst_remaining_ms: BURST_TTL_MS,
                particles: final(self).particles,
                ..*old(self)
            }),
            final(self).particles.particles == old(self).particles.particles,
            final(self).particles.width == old(self).particles.width,
            final(self).particles.height == old(self).particles.height,
            final(self).particles.bursts@.len() == old(self).particles.bursts@.len() + 24,
    {
        self.burst_remaining_ms = BURST_TTL_MS;
        self.particles.trigger_burst(24, BURST_TTL_MS);
    }

    /// Stopping a focus session arms the cool-down timer and changes nothing
    /// else.
    pub fn on_focus_stop(&mut self)
        requires
            old(self).wf(),
        ensures
            final(self).wf(),
            *final(self) == (MotivationState {
                cool_down_remaining_ms: COOL_DOWN_TTL_MS,
                ..*old(self)
            }),
    {
        self.cool_down_remaining_ms = COOL_DOWN_TTL_MS;
    }

    /// Waking from idle arms the wake-pulse timer and launches 16 burst
    /// particles; nothing else changes.
    pub fn on_wake_from_idle(&mut self)
        requires
            old(self).wf(),
        ensures
            final(self).wf(),
            *final(self) == (MotivationState {
                wake_pulse_remaining_ms: WAKE_PULSE_TTL_MS,
                particles: final(self).particles,
                ..*old(self)
            }),
            final(self).particles.particles == old(self).particles.particles,
            final(self).particles.width == old(self).particles.width,
            final(self).particles.height == old(self).particles.height,
            final(self).particles.bursts@.len() == old(self).particles.bursts@.len() + 16,
    {
        self.wake_pulse_remaining_ms = WAKE_PULSE_TTL_MS;
        self.particles.trigger_burst(16, WAKE_PULSE_TTL_MS);
    }

    pub fn burst_remaining(&self) -> (r: u64)
        ensures
            r == self.burst_remaining_ms,
    {
        self.burst_remaining_ms
    }

    pub fn cool_down_remaining(&self) -> (r: u64)
        ensures
            r == self.cool_down_remaining_ms,
    {
        self.cool_down_remaining_ms
    }

    pub fn wake_pulse_remaining(&self) -> (r: u64)
        ensures
            r == self.wake_pulse_remaining_ms,
    {
        self.wake_pulse_remaining_ms
    }

    /// Switches the tone and restarts its quote rotation; a no-op when the
    /// tone does not change. Nothing but the tone and the quote state moves.
    pub fn set_tone(&mut self, tone: Tone)
        requires
            old(self).wf(),
        ensures
            final(self).wf(),
            final(self).current_tone == tone,
            *final(self) == (MotivationState {
                current_tone: tone,
                last_quote_index: final(self).last_quote_index,
                quote: final(self).quote,
                typewriter: final(self).typewriter,
                ..*old(self)
            }),
            old(self).current_tone == tone ==> *final(self) == *old(self),
            old(self).current_tone != tone ==> {
                &&& final(self).last_quote_index == Some(0usize)
                &&& final(self).quote@ == spec_quote(tone, 0)
                &&& final(self).typewriter.text@ == spec_quote(tone, 0)
                &&& final(self).typewriter.visible == 0
            },
    {
        if self.current_tone == tone {
            return ;
        }
        self.current_tone = tone;
        self.last_quote_index = None;
        self.rotate_quote();
    }

    /// Advances to the next quote of the current tone and restarts the
    /// typewriter on it; with more than one quote in the list the same quote
    /// is never shown twice in a row. Nothing else changes.
    pub fn rotate_quote(&mut self)
        requires
            old(self).wf(),
        ensures
            final(self).wf(),
            *final(self) == (MotivationState {
                last_quote_index: final(self).last_quote_index,
                quote: final(self).quote,
                typewriter: final(self).typewriter,
                ..*old(self)
            }),
            final(self).last_quote_index == Some(
                spec_next_quote_index(
                    old(self).last_quote_index,
                    spec_quote_count(old(self).current_tone),
                ) as usize,
            ),
            final(self).quote@ == spec_quote(
                old(self).current_tone,
                spec_next_quote_index(
                    old(self).last_quote_index,
                    spec_quote_count(old(self).current_tone),
                ),
            ),
            final(self).typewriter == (crate::motivation_anim::QuoteTypewriter {
                text: final(self).typewriter.text,
                visible: 0usize,
                carry: 0u64,
                ..old(self).typewriter
            }),
            final(self).typewriter.text@ == final(self).quote@,
            old(self).last_quote_index is Some && spec_quote_count(old(self).current_tone) > 1
                ==> final(self).last_quote_index != old(self).last_quote_index,
    {
        let count = quote_count(self.current_tone);
        let mut next_index: usize = match self.last_quote_index {
            Some(i) => (i + 1) % count,
            None => 0,
        };
        if let Some(last) = self.last_quote_index {
            if count > 1 && next_index == last {
                next_index = (next_index + 1) % count;
            }
        }
        self.quote = quote_at(self.current_tone, next_index);
        self.last_quote_index = Some(next_index);
        let quote = self.quote;
        self.typewriter.set_text(quote);
    }
}

} // verus!
