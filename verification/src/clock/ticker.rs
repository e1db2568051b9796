//! The fixed-rate simulation clock: a monotonically growing tick counter plus
//! a family of power-of-two frequency predicates, so that entities act at
//! independent harmonics of the base tick without per-entity timers.
use crate::clock::time::{duration_as_millis, instant_elapsed, instant_now};
use core::time::Duration;
use std::time::Instant;
use vstd::arithmetic::div_mod::{lemma_fundamental_div_mod, lemma_fundamental_div_mod_converse};
use vstd::prelude::*;

verus! {

/// The tick number at which the counter wraps into the next cycle.
pub const MAX_NUMBER: u16 = 2048;

/// How often an entity acts: a divisor applied to the tick counter. `One`
/// fires on every tick; each following frequency fires half as often.
#[derive(Clone, Copy, Debug)]
pub enum Frequency {
    One,
    Two,
    Three,
    Four,
    Five,
    Six,
    Seven,
    Eight,
    Nine,
    Ten,
    Eleven,
    Twelve,
}

impl Frequency {
    /// The tick-count divisor of this frequency: a power of two up to
    /// `MAX_NUMBER`.
    pub open spec fn spec_divisor(self) -> u16 {
        match self {
            Frequency::One => 1,
            Frequency::Two => 2,
            Frequency::Three => 4,
            Frequency::Four => 8,
            Frequency::Five => 16,
            Frequency::Six => 32,
            Frequency::Seven => 64,
            Frequency::Eight => 128,
            Frequency::Nine => 256,
            Frequency::Ten => 512,
            Frequency::Eleven => 1024,
            Frequency::Twelve => 2048,
        }
    }

    /// The executable divisor.
    pub fn divisor(self) -> (r: u16)
        ensures
            r == self.spec_divisor(),
            r > 0,
            MAX_NUMBER as int % r as int == 0,
    {
        match self {
            Frequency::One => 1,
            Frequency::Two => 2,
            Frequency::Three => 4,
            Frequency::Four => 8,
            Frequency::Five => 16,
            Frequency::Six => 32,
            Frequency::Seven => 64,
            Frequency::Eight => 128,
            Frequency::Nine => 256,
            Frequency::Ten => 512,
            Frequency::Eleven => 1024,
            Frequency::Twelve => 2048,
        }
    }
}

/// Whether a frequency with divisor `d` fires at tick number `number`.
pub open spec fn fires(number: int, d: int) -> bool {
    number % d == 0
}

/// What is left of one tick's budget after some of it has elapsed, clamped
/// to zero.
pub open spec fn spec_remaining(rate_ms: u64, elapsed_ms: u64) -> u64 {
    if elapsed_ms <= rate_ms {
        (rate_ms - elapsed_ms) as u64
    } else {
        0
    }
}

/// The fixed-rate clock: a wrapping tick number plus the cycle count, and the
/// wall-clock bookkeeping that decides when the next tick is due. The tick
/// rate is kept as a plain count of whole milliseconds, the value the timing
/// contracts speak of.
pub struct Ticker {
    pub cycles: u16,
    pub number: u16,
    pub last_tick: Option<Instant>,
    pub tick_rate_ms: u64,
}

impl Ticker {
    /// The counter invariant: the tick number never leaves `[0, MAX_NUMBER]`.
    pub open spec fn wf(self) -> bool {
        self.number <= MAX_NUMBER
    }

    /// What one tick does to the counter: the number grows by one, wrapping
    /// from `MAX_NUMBER` to 1 while the cycle count takes the carry.
    pub open spec fn spec_tick(self) -> Ticker {
        if self.number == MAX_NUMBER {
            Ticker {
                cycles: if self.cycles == u16::MAX {
                    0u16
                } else {
                    (self.cycles + 1) as u16
                },
                number: 1,
                ..self
            }
        } else {
            Ticker { number: (self.number + 1) as u16, ..self }
        }
    }

    /// A fresh clock: tick number and cycle count at zero, no tick fired yet.
    /// The given duration is flattened once to whole milliseconds; everything
    /// after works on that plain value.
    pub fn new(tick_rate: Duration) -> (r: Self)
        ensures
            r.cycles == 0,
            r.number == 0,
            r.last_tick is None,
    {
        let tick_rate_ms = clamped_millis(duration_as_millis(&tick_rate));
        Self { cycles: 0, number: 0, last_tick: None, tick_rate_ms }
    }

    /// Whether the given frequency fires at the current tick number. Pure and
    /// deterministic, so callers may ask any number of times per tick. At
    /// tick number 0 every frequency fires, which is relied on to mean
    /// "fires on the very first tick".
    pub fn at(&self, frequency: Frequency) -> (r: bool)
        ensures
            r == fires(self.number as int, frequency.spec_divisor() as int),
    {
        self.number % frequency.divisor() == 0
    }

    /// Fires at most once per call: when the wall-clock time since the last
    /// fire has reached the tick rate, resets that timestamp and advances the
    /// counter. Returns whether it fired, so the caller can decide whether to
    /// run tick handlers this frame.
    pub fn maybe_tick(&mut self) -> (fired: bool)
        requires
            old(self).wf(),
        ensures
            final(self).wf(),
            final(self).tick_rate_ms == old(self).tick_rate_ms,
            final(self).last_tick is Some,
            fired ==> final(self).cycles == old(self).spec_tick().cycles && final(self).number
                == old(self).spec_tick().number,
            !fired ==> final(self).cycles == old(self).cycles && final(self).number == old(
                self,
            ).number,
    {
        let last_tick = match self.last_tick {
            Some(tick) => tick,
            None => self.reset_last_tick(),
        };
        let elapsed_ms = clamped_millis(duration_as_millis(&instant_elapsed(&last_tick)));
        let should_tick = elapsed_ms >= self.tick_rate_ms;
        if should_tick {
            self.reset_last_tick();
            self.tick();
        }
        should_tick
    }

    /// The total number of ticks so far: full cycles plus the current number.
    pub fn number(&self) -> (r: u64)
        ensures
            r == self.cycles as int * MAX_NUMBER as int + self.number as int,
    {
        self.cycles as u64 * MAX_NUMBER as u64 + self.number as u64
    }

    /// The time left before the next tick is due, in milliseconds, clamped to
    /// zero: the poll timeout for the input loop, so it never blocks past one
    /// tick's slack. Whatever the clock reads, the result never exceeds one
    /// tick's budget; before the first fire the whole budget is left. The
    /// exact clamp over the elapsed value read stands in `remaining_ms`.
    pub fn remaining_timeout(&self) -> (r: u64)
        ensures
            r <= self.tick_rate_ms,
            self.last_tick is None ==> r == self.tick_rate_ms,
    {
        let elapsed_ms = match self.last_tick {
            Some(tick) => clamped_millis(duration_as_millis(&instant_elapsed(&tick))),
            None => 0,
        };
        remaining_ms(self.tick_rate_ms, elapsed_ms)
    }

    /// Resets the counter and forgets the last fire, as a game restart does.
    pub fn restart(&mut self)
        ensures
            final(self).cycles == 0,
            final(self).number == 0,
            final(self).last_tick is None,
            final(self).tick_rate_ms == old(self).tick_rate_ms,
    {
        self.cycles = 0;
        self.number = 0;
        self.last_tick = None;
    }

    /// Advances the tick number by one, wrapping from `MAX_NUMBER` to 1 and
    /// carrying into the cycle count, so the total tick count keeps growing.
    pub fn tick(&mut self)
        requires
            old(self).wf(),
        ensures
            final(self).wf(),
            final(self).number == old(self).spec_tick().number,
            final(self).cycles == old(self).spec_tick().cycles,
            final(self).last_tick == old(self).last_tick,
            final(self).tick_rate_ms == old(self).tick_rate_ms,
    {
        self.number = if self.number == MAX_NUMBER {
            self.cycles = if self.cycles == u16::MAX {
                0
            } else {
                self.cycles + 1
            };
            1
        } else {
            self.number + 1
        };
    }

    fn reset_last_tick(&mut self) -> (now: Instant)
        ensures
            final(self).last_tick == Some(now),
            final(self).cycles == old(self).cycles,
            final(self).number == old(self).number,
            final(self).tick_rate_ms == old(self).tick_rate_ms,
    {
        let now = instant_now();
        self.last_tick = Some(now);
        now
    }
}

/// What is left of one tick's budget after `elapsed_ms` of it has passed:
/// the difference, clamped to zero. This is the whole timeout computation,
/// verified for every elapsed value the clock could read.
pub fn remaining_ms(rate_ms: u64, elapsed_ms: u64) -> (r: u64)
    ensures
        r == spec_remaining(rate_ms, elapsed_ms),
        r <= rate_ms,
{
    if elapsed_ms <= rate_ms {
        rate_ms - elapsed_ms
    } else {
        0
    }
}

/// A millisecond count squeezed into a machine word, saturating at its top;
/// durations that large are far beyond any tick rate.
fn clamped_millis(ms: u128) -> (r: u64)
    ensures
        r as int == if ms <= u64::MAX {
            ms as int
        } else {
            u64::MAX as int
        },
{
    if ms <= u64::MAX as u128 {
        ms as u64
    } else {
        u64::MAX
    }
}

/// How many tick numbers in `[0, n)` a frequency with divisor `d` fires at.
pub open spec fn fire_count(d: int, n: int) -> int
    decreases n,
{
    if n <= 0 {
        0
    } else {
        fire_count(d, n - 1) + if fires(n - 1, d) {
            1int
        } else {
            0int
        }
    }
}

/// The closed form of `fire_count`: over `[0, n)` a divisor `d` fires once
/// per started block of `d` numbers.
proof fn lemma_fire_count_closed(d: int, n: int)
    requires
        d > 0,
        n >= 0,
    ensures
        fire_count(d, n) == if n == 0 {
            0int
        } else {
            (n - 1) / d + 1
        },
    decreases n,
{
    if n > 0 {
        lemma_fire_count_closed(d, n - 1);
        if n > 1 {
            lemma_fundamental_div_mod(n - 2, d);
            let q = (n - 2) / d;
            let r = (n - 2) % d;
            assert(0 <= r < d) by {
                vstd::arithmetic::div_mod::lemma_mod_bound(n - 2, d);
            }
            if r == d - 1 {
                assert((q + 1) * d == q * d + d) by (nonlinear_arith);
                lemma_fundamental_div_mod_converse(n - 1, d, q + 1, 0);
            } else {
                lemma_fundamental_div_mod_converse(n - 1, d, q, r + 1);
            }
        }
    }
}

/// Law: over one full cycle of `MAX_NUMBER` tick numbers, the predicate for a
/// divisor `d` of `MAX_NUMBER` fires exactly `MAX_NUMBER / d` times, and the
/// divisor-1 frequency fires on every tick.
pub proof fn lemma_frequency_coverage(d: int)
    requires
        d > 0,
        MAX_NUMBER as int % d == 0,
    ensures
        fire_count(d, MAX_NUMBER as int) == MAX_NUMBER as int / d,
        fire_count(1, MAX_NUMBER as int) == MAX_NUMBER as int,
{
    let max = MAX_NUMBER as int;
    lemma_fire_count_closed(d, max);
    lemma_fundamental_div_mod(max, d);
    let q = max / d;
    assert(d * q == q * d) by (nonlinear_arith);
    assert(max == q * d);
    assert((q - 1) * d == q * d - d) by (nonlinear_arith);
    lemma_fundamental_div_mod_converse(max - 1, d, q - 1, d - 1);
    lemma_fire_count_closed(1, max);
    lemma_fundamental_div_mod_converse(max - 1, 1, max - 1, 0);
    lemma_fundamental_div_mod_converse(max, 1, max, 0);
}

} // verus!
