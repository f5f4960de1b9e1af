use vstd::prelude::*;

verus! {

/// Seed for the deterministic particle generator.
#[derive(Debug, Clone, Copy, PartialEq, Eq, Structural)]
pub struct Seed(pub u64);

/// Linear congruential generator driving all particle randomness; fully
/// deterministic in its seed.
#[derive(Debug, Clone, Copy, PartialEq, Eq, Structural)]
pub struct Lcg {
    pub state: u64,
}

pub open spec fn spec_lcg_next(s: u64) -> u64 {
    s.wrapping_mul(6364136223846793005).wrapping_add(1)
}

pub open spec fn spec_lcg_out(s: u64) -> u32 {
    (spec_lcg_next(s) / 0x1_0000_0000) as u32
}

impl Lcg {
    pub fn new(seed: u64) -> (r: Self)
        ensures
            r.state == seed ^ 0x9E37_79B9_7F4A_7C15u64,
    {
        Lcg { state: seed ^ 0x9E37_79B9_7F4A_7C15 }
    }

    pub fn next_u32(&mut self) -> (r: u32)
        ensures
            final(self).state == spec_lcg_next(old(self).state),
            r == spec_lcg_out(old(self).state),
    {
        self.state = self.state.wrapping_mul(6364136223846793005).wrapping_add(1);
        (self.state / 0x1_0000_0000) as u32
    }

    /// A value below `upper_exclusive` (below 1 when that bound is 0).
    pub fn next_u16(&mut self, upper_exclusive: u16) -> (r: u16)
        ensures
            final(self).state == spec_lcg_next(old(self).state),
            r == spec_lcg_out(old(self).state) as int % (if upper_exclusive == 0 {
                1int
            } else {
                upper_exclusive as int
            }),
            upper_exclusive > 0 ==> r < upper_exclusive,
    {
        let upper: u32 = if upper_exclusive == 0 {
            1
        } else {
            upper_exclusive as u32
        };
        (self.next_u32() % upper) as u16
    }
}

/// `v_fp * dt_ms / 1000`: how far something moving at `v_fp` 16.16
/// fixed-point cells per second travels in `dt_ms` milliseconds. The result
/// is exact whenever it fits 32 bits; beyond that (months of animation time
/// in one tick) the low 32 bits are kept.
pub open spec fn spec_fp_travel(v_fp: u32, dt_ms: u64) -> int {
    (v_fp * dt_ms) / 1000
}

pub fn mul_fp_per_sec(v_fp: u32, dt_ms: u64) -> (r: u32)
    ensures
        spec_fp_travel(v_fp, dt_ms) <= u32::MAX ==> r == spec_fp_travel(v_fp, dt_ms),
{
    proof {
        assert((v_fp as u128) * (dt_ms as u128) < u128::MAX) by (nonlinear_arith)
            requires
                v_fp <= u32::MAX && dt_ms <= u64::MAX,
        ;
    }
    let scaled: u128 = (v_fp as u128) * (dt_ms as u128);
    let travelled: u128 = scaled / 1000;
    #[verifier::truncate] (travelled as u32)
}

/// Signed variant for burst particles: the distance travelled in `dt_ms`
/// milliseconds at `v_fp` fixed-point cells per second, with the sign of the
/// speed. The result is exact whenever the magnitude fits an `i32`; beyond
/// that (which no burst speed reaches) only a valid `i32` is promised.
pub open spec fn spec_fp_travel_magnitude(v_fp: i32, dt_ms: u64) -> int {
    let mag = if v_fp >= 0 {
        v_fp as int
    } else {
        -(v_fp as int)
    };
    (mag * dt_ms) / 1000
}

pub fn mul_fp_per_sec_i32(v_fp: i32, dt_ms: u64) -> (r: i32)
    ensures
        spec_fp_travel_magnitude(v_fp, dt_ms) <= i32::MAX ==> r == (if v_fp >= 0 {
            spec_fp_travel_magnitude(v_fp, dt_ms)
        } else {
            -spec_fp_travel_magnitude(v_fp, dt_ms)
        }),
{
    let negative = v_fp < 0;
    let magnitude: u64 = if negative {
        #[verifier::truncate] ((-(v_fp as i64)) as u64)
    } else {
        v_fp as u64
    };
    proof {
        assert((magnitude as u128) * (dt_ms as u128) < u128::MAX) by (nonlinear_arith)
            requires
                magnitude <= u64::MAX && dt_ms <= u64::MAX,
        ;
    }
    let scaled: u128 = (magnitude as u128) * (dt_ms as u128);
    let travelled: u128 = scaled / 1000;
    if travelled <= i32::MAX as u128 {
        let t = travelled as i32;
        if negative {
            -t
        } else {
            t
        }
    } else {
        // magnitude does not fit: fall back to the clamped extreme
        if negative {
            i32::MIN
        } else {
            i32::MAX
        }
    }
}

/// One drifting snow particle: a column, a 16.16 fixed-point row, a fall
/// speed, and a glyph.
#[derive(Debug, Clone, Copy, PartialEq, Eq, Structural)]
pub struct Particle {
    pub x: u16,
    pub y_fp: u32,
    pub vy_fp: u32,
    pub glyph: char,
}

impl Particle {
    pub fn new(rng: &mut Lcg, width: u16, height: u16) -> (r: Self)
        requires
            width >= 1,
            height >= 1,
        ensures
            r.x < width,
            r.vy_fp >= 70_000,
    {
        let x = rng.next_u16(width);
        let y_cell = rng.next_u16(height) as u32;
        assert(y_cell < 0x1_0000);
        let y_fp = y_cell * 65536;
        let vy_fp = (70_000u32).saturating_add(rng.next_u32() % 90_000);
        let roll = rng.next_u32() % 4;
        let glyph = if roll == 0 {
            '.'
        } else if roll == 1 {
            '*'
        } else if roll == 2 {
            'o'
        } else {
            '+'
        };
        Particle { x, y_fp, vy_fp, glyph }
    }

    pub fn clamp(&mut self, width: u16, height: u16)
        requires
            width >= 1,
            height >= 1,
        ensures
            final(self).x < width,
            final(self).vy_fp == old(self).vy_fp,
            final(self).glyph == old(self).glyph,
    {
        self.x = self.x % width;
        let max_y_fp = ((height as u32) - 1) * 65536;
        if self.y_fp > max_y_fp {
            self.y_fp = max_y_fp;
        }
    }

    pub fn tick(&mut self, dt_ms: u64, rng: &mut Lcg, width: u16, height: u16)
        requires
            width >= 1,
            height >= 1,
            old(self).x < width,
        ensures
            final(self).x < width,
            final(self).vy_fp == old(self).vy_fp,
            final(self).glyph == old(self).glyph,
    {
        let height_fp = (height as u32) * 65536;
        let delta = mul_fp_per_sec(self.vy_fp, dt_ms);
        self.y_fp = self.y_fp.saturating_add(delta);

        if self.y_fp >= height_fp {
            self.y_fp = self.y_fp % height_fp;
            self.x = rng.next_u16(width);
        }

        if rng.next_u32() % 256 == 0 {
            let dir: i32 = (rng.next_u32() % 3) as i32 - 1;
            let nx: i32 = (self.x as i32) + dir;
            let hi: i32 = (width - 1) as i32;
            self.x = if nx < 0 {
                0
            } else if nx > hi {
                hi as u16
            } else {
                nx as u16
            };
        }
    }

    pub fn y_cell(&self, height: u16) -> (r: u16)
        ensures
            height >= 1 ==> r < height,
    {
        let h: u32 = if height == 0 {
            1
        } else {
            height as u32
        };
        ((self.y_fp / 65536) % h) as u16
    }
}

/// One short-lived burst particle, launched upwards with a sideways impulse.
#[derive(Debug, Clone, Copy, PartialEq, Eq, Structural)]
pub struct BurstParticle {
    pub x_fp: u32,
    pub y_fp: u32,
    pub vx_fp: i32,
    pub vy_fp: i32,
    pub ttl_ms: u64,
    pub glyph: char,
}

impl BurstParticle {
    pub fn new(rng: &mut Lcg, width: u16, height: u16, ttl_ms: u64) -> (r: Self)
        ensures
            r.ttl_ms == ttl_ms,
    {
        let xc = rng.next_u16(width) as u32;
        let yc = rng.next_u16(height) as u32;
        assert(xc < 0x1_0000 && yc < 0x1_0000);
        let x_fp = xc * 65536;
        let y_fp = yc * 65536;
        let vx_fp: i32 = ((rng.next_u32() % 60_000) as i32) - 30_000;
        let vy_fp: i32 = -(((rng.next_u32() % 120_000) as i32) + 40_000);
        let roll = rng.next_u32() % 3;
        let glyph = if roll == 0 {
            '*'
        } else if roll == 1 {
            '+'
        } else {
            '#'
        };
        BurstParticle { x_fp, y_fp, vx_fp, vy_fp, ttl_ms, glyph }
    }

    pub fn clamp(&mut self, width: u16, height: u16)
        ensures
            final(self).ttl_ms == old(self).ttl_ms,
    {
        let w: u32 = if width == 0 {
            1
        } else {
            width as u32
        };
        let h: u32 = if height == 0 {
            1
        } else {
            height as u32
        };
        let width_fp = w * 65536;
        let height_fp = h * 65536;
        self.x_fp = self.x_fp % width_fp;
        self.y_fp = self.y_fp % height_fp;
    }

    pub fn tick(&mut self, dt_ms: u64, width: u16, height: u16)
        ensures
            final(self).ttl_ms == old(self).ttl_ms,
    {
        let dx = mul_fp_per_sec_i32(self.vx_fp, dt_ms);
        let dy = mul_fp_per_sec_i32(self.vy_fp, dt_ms);
        self.x_fp = saturating_add_signed_u32(self.x_fp, dx);
        self.y_fp = saturating_add_signed_u32(self.y_fp, dy);

        let w: u32 = if width == 0 {
            1
        } else {
            width as u32
        };
        let h: u32 = if height == 0 {
            1
        } else {
            height as u32
        };
        let width_fp = w * 65536;
        let height_fp = h * 65536;
        if self.x_fp >= width_fp {
            self.x_fp = self.x_fp % width_fp;
        }
        if self.y_fp >= height_fp {
            self.y_fp = self.y_fp % height_fp;
        }
    }

    pub fn x_cell(&self, width: u16) -> (r: u16)
        ensures
            width >= 1 ==> r < width,
    {
        let w: u32 = if width == 0 {
            1
        } else {
            width as u32
        };
        ((self.x_fp / 65536) % w) as u16
    }

    pub fn y_cell(&self, height: u16) -> (r: u16)
        ensures
            height >= 1 ==> r < height,
    {
        let h: u32 = if height == 0 {
            1
        } else {
            height as u32
        };
        ((self.y_fp / 65536) % h) as u16
    }
}

/// Adds a signed delta to an unsigned position, clamping at both ends.
fn saturating_add_signed_u32(base: u32, delta: i32) -> (r: u32)
    ensures
        r == if base + delta < 0 {
            0int
        } else if base + delta > u32::MAX {
            u32::MAX as int
        } else {
            base + delta
        },
{
    if delta >= 0 {
        base.saturating_add(delta as u32)
    } else {
        let magnitude: u32 = #[verifier::truncate] ((-(delta as i64)) as u32);
        assert(magnitude == -(delta as int));
        base.saturating_sub(magnitude)
    }
}

/// The drifting snow field behind the motivation pane, plus any active
/// celebratory bursts, pre-rendered each tick into a list of glyph cells.
#[derive(Debug, Clone, PartialEq, Eq)]
pub struct ParticleField {
    pub rng: Lcg,
    pub width: u16,
    pub height: u16,
    pub particles: Vec<Particle>,
    pub bursts: Vec<BurstParticle>,
    pub render_cache: Vec<(u16, u16, char)>,
}

impl ParticleField {
    /// Everything the renderer needs to rely on: positive bounds, every
    /// particle inside them, and the cache holding one cell per particle,
    /// every cell inside the bounds.
    pub open spec fn wf(&self) -> bool {
        &&& self.width >= 1
        &&& self.height >= 1
        &&& forall|j: int|
            0 <= j < self.particles@.len() ==> (#[trigger] self.particles@[j]).x < self.width
        &&& self.render_cache@.len() == self.particles@.len() + self.bursts@.len()
        &&& forall|j: int|
            0 <= j < self.render_cache@.len() ==> (#[trigger] self.render_cache@[j]).0 < self.width
                && self.render_cache@[j].1 < self.height
    }

    pub fn new(seed: Seed, width: u16, height: u16, count: usize) -> (r: Self)
        ensures
            r.wf(),
            r.particles@.len() == count,
            r.width == if width == 0 {
                1u16
            } else {
                width
            },
            r.height == if height == 0 {
                1u16
            } else {
                height
            },
    {
        let mut rng = Lcg::new(seed.0);
        let width: u16 = if width == 0 {
            1
        } else {
            width
        };
        let height: u16 = if height == 0 {
            1
        } else {
            height
        };
        let mut particles: Vec<Particle> = Vec::new();
        let mut made: usize = 0;
        while made < count
            invariant
                width >= 1,
                height >= 1,
                made <= count,
                particles@.len() == made,
                forall|j: int| 0 <= j < made ==> (#[trigger] particles@[j]).x < width,
            decreases count - made,
        {
            particles.push(Particle::new(&mut rng, width, height));
            made = made + 1;
        }

        let mut this = Self {
            rng,
            width,
            height,
            particles,
            bursts: Vec::new(),
            render_cache: Vec::new(),
        };
        this.rebuild_cache();
        this
    }

    pub fn resize(&mut self, width: u16, height: u16)
        requires
            old(self).wf(),
        ensures
            final(self).wf(),
            final(self).width == if width == 0 {
                1u16
            } else {
                width
            },
            final(self).height == if height == 0 {
                1u16
            } else {
                height
            },
            final(self).particles@.len() == old(self).particles@.len(),
            final(self).bursts@.len() == old(self).bursts@.len(),
            (if width == 0 {
                1u16
            } else {
                width
            }) == old(self).width && (if height == 0 {
                1u16
            } else {
                height
            }) == old(self).height ==> *final(self) == *old(self),
    {
        let width: u16 = if width == 0 {
            1
        } else {
            width
        };
        let height: u16 = if height == 0 {
            1
        } else {
            height
        };
        if self.width == width && self.height == height {
            return ;
        }
        self.width = width;
        self.height = height;
        let n = self.particles.len();
        let mut j: usize = 0;
        while j < n
            invariant
                width >= 1,
                height >= 1,
                n == self.particles@.len(),
                j <= n,
                self.width == width,
                self.height == height,
                self.bursts@.len() == old(self).bursts@.len(),
                forall|k: int| 0 <= k < j ==> (#[trigger] self.particles@[k]).x < width,
            decreases n - j,
        {
            let mut p = self.particles[j];
            p.clamp(width, height);
            self.particles.set(j, p);
            j = j + 1;
        }
        let m = self.bursts.len();
        let mut j2: usize = 0;
        while j2 < m
            invariant
                width >= 1,
                height >= 1,
                m == self.bursts@.len(),
                j2 <= m,
                self.particles@.len() == n,
                forall|k: int| 0 <= k < n ==> (#[trigger] self.particles@[k]).x < width,
                self.width == width,
                self.height == height,
            decreases m - j2,
        {
            let mut b = self.bursts[j2];
            b.clamp(width, height);
            self.bursts.set(j2, b);
            j2 = j2 + 1;
        }
        self.rebuild_cache();
    }

    /// One animation step: every particle falls, every burst flies and ages,
    /// spent bursts are dropped, and the render cache is rebuilt.
    pub fn tick(&mut self, dt_ms: u64)
        requires
            old(self).wf(),
        ensures
            final(self).wf(),
            final(self).width == old(self).width,
            final(self).height == old(self).height,
            final(self).particles@.len() == old(self).particles@.len(),
            final(self).bursts@.len() <= old(self).bursts@.len(),
            forall|j: int|
                0 <= j < final(self).bursts@.len() ==> (#[trigger] final(self).bursts@[j]).ttl_ms
                    > 0,
    {
        let n = self.particles.len();
        let mut j: usize = 0;
        while j < n
            invariant
                self.width >= 1,
                self.height >= 1,
                self.width == old(self).width,
                self.height == old(self).height,
                n == self.particles@.len(),
                self.particles@.len() == old(self).particles@.len(),
                self.bursts@.len() == old(self).bursts@.len(),
                j <= n,
                forall|k: int|
                    0 <= k < self.particles@.len() ==> (#[trigger] self.particles@[k]).x
                        < self.width,
            decreases n - j,
        {
            let mut p = self.particles[j];
            p.tick(dt_ms, &mut self.rng, self.width, self.height);
            self.particles.set(j, p);
            j = j + 1;
        }

        let m = self.bursts.len();
        let mut kept: Vec<BurstParticle> = Vec::new();
        let mut j2: usize = 0;
        while j2 < m
            invariant
                self.width >= 1,
                self.height >= 1,
                self.width == old(self).width,
                self.height == old(self).height,
                m == self.bursts@.len(),
                self.particles@.len() == old(self).particles@.len(),
                forall|k: int|
                    0 <= k < self.particles@.len() ==> (#[trigger] self.particles@[k]).x
                        < self.width,
                j2 <= m,
                kept@.len() <= j2,
                forall|k: int| 0 <= k < kept@.len() ==> (#[trigger] kept@[k]).ttl_ms > 0,
            decreases m - j2,
        {
            let mut b = self.bursts[j2];
            b.tick(dt_ms, self.width, self.height);
            let aged = b.ttl_ms.saturating_sub(dt_ms);
            b.ttl_ms = aged;
            if b.ttl_ms > 0 {
                kept.push(b);
            }
            j2 = j2 + 1;
        }
        self.bursts = kept;
        self.rebuild_cache();
    }

    /// Launches `count` burst particles living `ttl_ms` milliseconds; a zero
    /// count or lifetime launches nothing.
    pub fn trigger_burst(&mut self, count: usize, ttl_ms: u64)
        requires
            old(self).wf(),
        ensures
            final(self).wf(),
            final(self).width == old(self).width,
            final(self).height == old(self).height,
            final(self).particles == old(self).particles,
            ttl_ms == 0 || count == 0 ==> *final(self) == *old(self),
            ttl_ms > 0 && count > 0 ==> {
                &&& final(self).bursts@.len() == old(self).bursts@.len() + count
                &&& final(self).bursts@.subrange(0, old(self).bursts@.len() as int) == old(
                    self,
                ).bursts@
                &&& forall|j: int|
                    old(self).bursts@.len() <= j < final(self).bursts@.len() ==> (
                    #[trigger] final(self).bursts@[j]).ttl_ms == ttl_ms
            },
    {
        if ttl_ms == 0 || count == 0 {
            return ;
        }
        let ghost base = self.bursts@.len();
        let mut made: usize = 0;
        while made < count
            invariant
                self.width >= 1,
                self.height >= 1,
                self.width == old(self).width,
                self.height == old(self).height,
                self.particles@.len() == old(self).particles@.len(),
                forall|k: int|
                    0 <= k < self.particles@.len() ==> (#[trigger] self.particles@[k]).x
                        < self.width,
                made <= count,
                self.bursts@.len() == base + made,
                self.bursts@.subrange(0, base as int) =~= old(self).bursts@,
                self.particles == old(self).particles,
                forall|j: int|
                    base <= j < self.bursts@.len() ==> (#[trigger] self.bursts@[j]).ttl_ms
                        == ttl_ms,
            decreases count - made,
        {
            let b = BurstParticle::new(&mut self.rng, self.width, self.height, ttl_ms);
            self.bursts.push(b);
            made = made + 1;
        }
        self.rebuild_cache();
    }

    /// The pre-rendered cells: one per particle and one per burst, each
    /// inside the field's bounds.
    pub fn points(&self) -> (r: &[(u16, u16, char)])
        ensures
            r@ == self.render_cache@,
    {
        self.render_cache.as_slice()
    }

    pub fn snapshot(&self) -> (r: Vec<(u16, u16, char)>)
        ensures
            r@ == self.render_cache@,
    {
        vstd::slice::slice_to_vec(self.render_cache.as_slice())
    }

    fn rebuild_cache(&mut self)
        requires
            old(self).width >= 1,
            old(self).height >= 1,
            forall|j: int|
                0 <= j < old(self).particles@.len() ==> (#[trigger] old(self).particles@[j]).x
                    < old(self).width,
        ensures
            *final(self) == (ParticleField { render_cache: final(self).render_cache, ..*old(self) }),
            final(self).wf(),
    {
        let mut cache: Vec<(u16, u16, char)> = Vec::new();
        let n = self.particles.len();
        let mut j: usize = 0;
        while j < n
            invariant
                self.width >= 1,
                self.height >= 1,
                n == self.particles@.len(),
                forall|k: int|
                    0 <= k < self.particles@.len() ==> (#[trigger] self.particles@[k]).x
                        < self.width,
                j <= n,
                cache@.len() == j,
                forall|k: int|
                    0 <= k < cache@.len() ==> (#[trigger] cache@[k]).0 < self.width
                        && cache@[k].1 < self.height,
            decreases n - j,
        {
            let p = &self.particles[j];
            let cell = (p.x, p.y_cell(self.height), p.glyph);
            cache.push(cell);
            j = j + 1;
        }
        let m = self.bursts.len();
        let mut j2: usize = 0;
        while j2 < m
            invariant
                self.width >= 1,
                self.height >= 1,
                m == self.bursts@.len(),
                n == self.particles@.len(),
                j2 <= m,
                cache@.len() == n + j2,
                forall|k: int|
                    0 <= k < cache@.len() ==> (#[trigger] cache@[k]).0 < self.width
                        && cache@[k].1 < self.height,
            decreases m - j2,
        {
            let b = &self.bursts[j2];
            let cell = (b.x_cell(self.width), b.y_cell(self.height), b.glyph);
            cache.push(cell);
            j2 = j2 + 1;
        }
        self.render_cache = cache;
    }
}

} // verus!
