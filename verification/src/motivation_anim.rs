use vstd::prelude::*;
use vstd::string::StrSliceExecFns;

verus! {

/// Carry arithmetic shared by the typewriter and the ticker: advancing an
/// animation by `dt_ms` at `cps` steps per second yields
/// `(dt_ms * cps + carry) / 1000` whole steps and a new sub-step carry of
/// `(dt_ms * cps + carry) % 1000`.
pub open spec fn spec_steps(dt_ms: u64, cps: u32, carry: u64) -> int {
    (dt_ms * cps + carry) / 1000
}

pub open spec fn spec_carry(dt_ms: u64, cps: u32, carry: u64) -> u64 {
    ((dt_ms * cps + carry) % 1000) as u64
}

/// Whole steps and new carry, computed exactly; the step count is clamped to
/// `usize::MAX` (it only ever feeds saturating additions).
fn advance_steps(dt_ms: u64, cps: u32, carry: u64) -> (r: (usize, u64))
    ensures
        r.0 == if spec_steps(dt_ms, cps, carry) > usize::MAX {
            usize::MAX as int
        } else {
            spec_steps(dt_ms, cps, carry)
        },
        r.1 == spec_carry(dt_ms, cps, carry),
{
    proof {
        assert((dt_ms as u128) * (cps as u128) + (carry as u128) < u128::MAX) by (nonlinear_arith)
            requires
                dt_ms <= u64::MAX && cps <= u32::MAX && carry <= u64::MAX,
        ;
    }
    let add: u128 = (dt_ms as u128) * (cps as u128) + (carry as u128);
    let inc: u128 = add / 1000;
    let new_carry: u64 = (add % 1000) as u64;
    let steps: usize = if inc > usize::MAX as u128 {
        usize::MAX
    } else {
        inc as usize
    };
    (steps, new_carry)
}

/// A triangle-wave brightness used for the banner: rises from 0 to 255 over
/// the first half of the period and falls back over the second half.
#[derive(Debug, Clone, Copy, PartialEq, Eq, Structural)]
pub struct BannerPulse {
    pub period_ms: u64,
    pub elapsed_ms: u64,
}

pub open spec fn spec_intensity(period_ms: u64, elapsed_ms: u64) -> u8 {
    if period_ms == 0 || period_ms / 2 == 0 {
        255u8
    } else {
        let half = (period_ms / 2) as int;
        let t = (elapsed_ms % period_ms) as int;
        let up: int = if t <= half {
            t
        } else {
            period_ms - t
        };
        ((up * 255) / half) as u8
    }
}

impl BannerPulse {
    pub fn new(period_ms: u64) -> (r: Self)
        ensures
            r == (BannerPulse { period_ms, elapsed_ms: 0u64 }),
    {
        BannerPulse { period_ms, elapsed_ms: 0 }
    }

    pub fn tick(&mut self, dt_ms: u64)
        ensures
            *final(self) == (BannerPulse {
                elapsed_ms: if old(self).elapsed_ms + dt_ms > u64::MAX {
                    u64::MAX
                } else {
                    (old(self).elapsed_ms + dt_ms) as u64
                },
                ..*old(self)
            }),
    {
        self.elapsed_ms = self.elapsed_ms.saturating_add(dt_ms);
    }

    pub fn intensity_0_to_255(&self) -> (r: u8)
        ensures
            r == spec_intensity(self.period_ms, self.elapsed_ms),
    {
        if self.period_ms == 0 {
            return 255;
        }
        let half = self.period_ms / 2;
        if half == 0 {
            return 255;
        }
        let t = self.elapsed_ms % self.period_ms;
        let up: u64 = if t <= half {
            t
        } else {
            self.period_ms - t
        };
        assert(up <= half);
        let scaled: u128 = (up as u128) * 255;
        let value: u128 = scaled / (half as u128);
        assert(value <= 255) by (nonlinear_arith)
            requires
                up <= half,
                half > 0,
                scaled == up * 255,
                value == scaled / (half as u128),
        ;
        value as u8
    }
}

/// Reveals a fixed text character by character at a fixed speed.
#[derive(Debug, Clone, PartialEq, Eq)]
pub struct QuoteTypewriter {
    pub cps: u32,
    pub text: String,
    pub visible: usize,
    pub carry: u64,
}

impl QuoteTypewriter {
    pub open spec fn wf(&self) -> bool {
        self.visible <= self.text@.len()
    }

    pub fn new(cps: u32) -> (r: Self)
        ensures
            r.cps == cps,
            r.text@ =~= Seq::<char>::empty(),
            r.visible == 0,
            r.carry == 0,
            r.wf(),
    {
        QuoteTypewriter { cps, text: String::new(), visible: 0, carry: 0 }
    }

    pub fn set_text(&mut self, text: &str)
        ensures
            *final(self) == (QuoteTypewriter {
                text: final(self).text,
                visible: 0usize,
                carry: 0u64,
                ..*old(self)
            }),
            final(self).text@ == text@,
            final(self).wf(),
    {
        self.text = text.to_owned();
        self.visible = 0;
        self.carry = 0;
    }

    /// Advances the reveal: no change once the whole text is visible or at
    /// speed zero; otherwise the visible count grows by the elapsed whole
    /// steps, capped at the text length.
    pub fn tick(&mut self, dt_ms: u64)
        requires
            old(self).wf(),
        ensures
            final(self).wf(),
            final(self).cps == old(self).cps,
            final(self).text == old(self).text,
            old(self).visible >= old(self).text@.len() || old(self).cps == 0 ==> *final(self)
                == *old(self),
            !(old(self).visible >= old(self).text@.len() || old(self).cps == 0) ==> {
                &&& final(self).carry == spec_carry(dt_ms, old(self).cps, old(self).carry)
                &&& final(self).visible == vstd::math::min(
                    vstd::math::min(
                        old(self).visible + spec_steps(dt_ms, old(self).cps, old(self).carry),
                        usize::MAX as int,
                    ),
                    old(self).text@.len() as int,
                )
            },
    {
        let len = self.text.as_str().unicode_len();
        if self.visible >= len || self.cps == 0 {
            return ;
        }
        let (steps, new_carry) = advance_steps(dt_ms, self.cps, self.carry);
        self.carry = new_carry;
        let grown = self.visible.saturating_add(steps);
        self.visible = if grown < len {
            grown
        } else {
            len
        };
    }

    pub fn visible_len(&self) -> (r: usize)
        ensures
            r == self.visible,
    {
        self.visible
    }

    /// The revealed prefix of the text.
    pub fn visible_text(&self) -> (r: &str)
        requires
            self.wf(),
        ensures
            r@ == self.text@.subrange(0, self.visible as int),
    {
        self.text.as_str().substring_char(0, self.visible)
    }
}

/// A marquee: scrolls a fixed text leftwards, one column per step.
#[derive(Debug, Clone, PartialEq, Eq)]
pub struct Ticker {
    pub cps: u32,
    pub text: String,
    pub offset_cols: u32,
    pub carry: u64,
}

/// The window of `width` characters the ticker shows at offset `offset`:
/// the text repeated end to end, starting `offset` characters in.
pub open spec fn spec_ticker_window(text: Seq<char>, offset: u32, width: u16) -> Seq<char> {
    if width == 0 {
        Seq::<char>::empty()
    } else if text.len() == 0 {
        Seq::new(width as nat, |k: int| ' ')
    } else {
        Seq::new(
            width as nat,
            |k: int| text[((offset as int) % (text.len() as int) + k) % (text.len() as int)],
        )
    }
}

impl Ticker {
    pub fn new(cps: u32) -> (r: Self)
        ensures
            r.cps == cps,
            r.text@ =~= Seq::<char>::empty(),
            r.offset_cols == 0,
            r.carry == 0,
    {
        Ticker { cps, text: String::new(), offset_cols: 0, carry: 0 }
    }

    pub fn set_text(&mut self, text: &str)
        ensures
            *final(self) == (Ticker {
                text: final(self).text,
                offset_cols: 0u32,
                carry: 0u64,
                ..*old(self)
            }),
            final(self).text@ == text@,
    {
        self.text = text.to_owned();
        self.offset_cols = 0;
        self.carry = 0;
    }

    /// Advances the scroll position by the elapsed whole steps (saturating).
    pub fn tick(&mut self, dt_ms: u64)
        ensures
            final(self).cps == old(self).cps,
            final(self).text == old(self).text,
            old(self).cps == 0 ==> *final(self) == *old(self),
            old(self).cps != 0 ==> {
                &&& final(self).carry == spec_carry(dt_ms, old(self).cps, old(self).carry)
                &&& final(self).offset_cols == vstd::math::min(
                    old(self).offset_cols + vstd::math::min(
                        spec_steps(dt_ms, old(self).cps, old(self).carry),
                        u32::MAX as int,
                    ),
                    u32::MAX as int,
                )
            },
    {
        if self.cps == 0 {
            return ;
        }
        let (steps, new_carry) = advance_steps(dt_ms, self.cps, self.carry);
        self.carry = new_carry;
        let step_cols: u32 = if steps > u32::MAX as usize {
            u32::MAX
        } else {
            steps as u32
        };
        self.offset_cols = self.offset_cols.saturating_add(step_cols);
    }

    pub fn offset_cols(&self) -> (r: u32)
        ensures
            r == self.offset_cols,
    {
        self.offset_cols
    }

    /// The `width` characters currently in view.
    pub fn window(&self, width: u16) -> (r: String)
        ensures
            r@ =~= spec_ticker_window(self.text@, self.offset_cols, width),
    {
        if width == 0 {
            return String::new();
        }
        let len = self.text.as_str().unicode_len();
        if len == 0 {
            return crate::text::spaces(width as usize);
        }
        let start = (self.offset_cols as usize) % len;
        let ghost text = self.text@;
        let mut out = String::new();
        let mut i = start;
        let mut produced: usize = 0;
        proof {
            vstd::arithmetic::div_mod::lemma_small_mod(start as nat, len as nat);
        }
        while produced < width as usize
            invariant
                len == text.len(),
                len > 0,
                start == self.offset_cols as int % len as int,
                i < len,
                i == (start + produced) % (len as int),
                produced <= width as int,
                self.text@ == text,
                out@ =~= Seq::new(produced as nat, |k: int| text[(start + k) % (len as int)]),
            decreases width as int - produced,
        {
            let c = self.text.as_str().get_char(i);
            out.push(c);
            let ghost prev_i = i as int;
            let ghost sp = start + produced;
            produced = produced + 1;
            i = i + 1;
            if i == len {
                i = 0;
            }
            proof {
                vstd::arithmetic::div_mod::lemma_add_mod_noop(sp, 1, len as int);
                if prev_i + 1 == len {
                    vstd::arithmetic::div_mod::lemma_mod_self_0(len as int);
                } else {
                    vstd::arithmetic::div_mod::lemma_small_mod((prev_i + 1) as nat, len as nat);
                }
                if len == 1 {
                    vstd::arithmetic::div_mod::lemma_mod_self_0(1int);
                } else {
                    vstd::arithmetic::div_mod::lemma_small_mod(1nat, len as nat);
                }
                assert(i == (sp + 1) % (len as int));
            }
        }
        proof {
            assert(out@ =~= spec_ticker_window(self.text@, self.offset_cols, width));
        }
        out
    }
}

} // verus!
