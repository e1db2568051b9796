//! A saturating decrementing timer with on/off semantics.
//!
//! A countdown configured with starting value 0 is permanently off, which is
//! the idiom used for cooldowns that are never disabled.
use vstd::prelude::*;

verus! {

/// A declarative cooldown/duration primitive: `on()` iff the current value is
/// still positive, `down()` decrements without ever underflowing, and
/// `restart()` resets the current value to the configured starting value.
///
/// The fields are public so that specifications can speak about them directly.
#[derive(Clone, Copy, Debug, PartialEq, Eq, Structural)]
pub struct Countdown {
    pub current: u16,
    pub starting_from: u16,
}

impl Countdown {
    /// A new countdown starts at 0 (off) and remembers its starting value.
    pub fn new(starting_from: u16) -> (r: Self)
        ensures
            r.current == 0,
            r.starting_from == starting_from,
    {
        Self { current: 0, starting_from }
    }

    /// Decrements the current value, saturating at 0.
    pub fn down(&mut self)
        ensures
            final(self).current == if old(self).current > 0 {
                old(self).current - 1
            } else {
                0
            },
            final(self).starting_from == old(self).starting_from,
    {
        self.current = if self.current > 0 {
            self.current - 1
        } else {
            0
        };
    }

    /// True iff the countdown has run out.
    pub fn off(&self) -> (r: bool)
        ensures
            r == (self.current == 0),
    {
        self.current == 0
    }

    /// True iff the countdown is still running; the complement of `off()`.
    pub fn on(&self) -> (r: bool)
        ensures
            r == (self.current > 0),
    {
        !self.off()
    }

    /// Resets the current value to the configured starting value.
    pub fn restart(&mut self)
        ensures
            final(self).current == old(self).starting_from,
            final(self).starting_from == old(self).starting_from,
    {
        self.current = self.starting_from;
    }
}

/// The countdown after `n` calls to `down()`: the current value loses `n`,
/// saturating at 0, and the starting value is untouched.
pub open spec fn spec_down_n(c: Countdown, n: nat) -> Countdown
    decreases n,
{
    if n == 0 {
        c
    } else {
        let prev = spec_down_n(c, (n - 1) as nat);
        Countdown {
            current: if prev.current > 0 {
                (prev.current - 1) as u16
            } else {
                0
            },
            ..prev
        }
    }
}

/// Law: a freshly restarted countdown with starting value `n` is on iff
/// `n > 0`; after exactly `n` calls to `down()` it is off; and it stays off
/// under any number of further `down()` calls.
pub proof fn lemma_countdown_runs_out(n: u16, extra: nat)
    ensures
        ({
            let fresh = Countdown { current: n, starting_from: n };
            &&& (fresh.current > 0 <==> n > 0)
            &&& spec_down_n(fresh, n as nat).current == 0
            &&& spec_down_n(fresh, n as nat + extra).current == 0
        }),
{
    let fresh = Countdown { current: n, starting_from: n };
    lemma_down_n_saturates(fresh, n as nat);
    lemma_down_n_saturates(fresh, n as nat + extra);
}

/// After `n` downs the current value is the starting one minus `n`,
/// saturating at 0.
proof fn lemma_down_n_saturates(c: Countdown, n: nat)
    ensures
        spec_down_n(c, n).current == if c.current >= n {
            c.current - n
        } else {
            0
        },
        spec_down_n(c, n).starting_from == c.starting_from,
    decreases n,
{
    if n > 0 {
        lemma_down_n_saturates(c, (n - 1) as nat);
    }
}

} // verus!
