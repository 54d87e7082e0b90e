//! Media clock: whole seconds plus a sub-second remainder in microseconds.

use vstd::arithmetic::div_mod::{
    lemma_fundamental_div_mod, lemma_fundamental_div_mod_converse, lemma_mod_bound,
};
use vstd::prelude::*;

verus! {

/// Number of microseconds in one second.
pub const MICROS_PER_SECOND: u64 = 1_000_000;

/// Largest seconds value a clock may carry.  Keeping seconds below this
/// bound lets every total-microsecond computation fit in a `u64` (the bound
/// is over a century of video, far beyond any render run).
pub const MAX_CLOCK_SECONDS: u64 = 4_000_000_000;

/// A point in media time: `sec` whole seconds plus `micro` microseconds,
/// normalized so that `micro` always stays below one second.  Ordering is
/// lexicographic on `(sec, micro)`, which coincides with ordering by total
/// microseconds.
#[derive(Clone, Copy, Debug, PartialEq, Eq, Structural)]
pub struct TimeTick {
    pub sec: u64,
    pub micro: u64,
}

impl TimeTick {
    /// Normalization invariant: the remainder is below one second and the
    /// seconds stay within the machine bound.
    pub open spec fn wf(self) -> bool {
        self.micro < MICROS_PER_SECOND && self.sec <= MAX_CLOCK_SECONDS
    }

    /// The tick as a total number of microseconds.
    pub open spec fn as_micros(self) -> int {
        self.sec * MICROS_PER_SECOND + self.micro
    }

    /// The normalized tick holding `t` total microseconds.
    pub open spec fn from_micros(t: int) -> TimeTick {
        TimeTick {
            sec: (t / (MICROS_PER_SECOND as int)) as u64,
            micro: (t % (MICROS_PER_SECOND as int)) as u64,
        }
    }

    /// The tick after subtracting `other`, clamped at zero: the clock only
    /// moves forward, so a negative duration never arises in a valid run.
    pub open spec fn subtracted(self, other: TimeTick) -> TimeTick {
        if self.as_micros() >= other.as_micros() {
            Self::from_micros(self.as_micros() - other.as_micros())
        } else {
            Self::from_micros(0)
        }
    }

    /// The tick after adding `other`.
    pub open spec fn added(self, other: TimeTick) -> TimeTick {
        Self::from_micros(self.as_micros() + other.as_micros())
    }

    /// The zero clock.
    pub fn new() -> (r: TimeTick)
        ensures
            r.wf(),
            r.as_micros() == 0,
    {
        TimeTick { sec: 0, micro: 0 }
    }

    /// A normalized tick from raw seconds and microseconds; a remainder of a
    /// second or more carries into the seconds.
    pub fn build(sec: u64, micro: u64) -> (r: TimeTick)
        requires
            sec * MICROS_PER_SECOND + micro <= MAX_CLOCK_SECONDS * MICROS_PER_SECOND,
        ensures
            r.wf(),
            r.as_micros() == sec * MICROS_PER_SECOND + micro,
    {
        proof {
            lemma_fundamental_div_mod(micro as int, MICROS_PER_SECOND as int);
            lemma_mod_bound(micro as int, MICROS_PER_SECOND as int);
            assert(micro / MICROS_PER_SECOND <= micro) by {
                vstd::arithmetic::div_mod::lemma_div_is_ordered_by_denominator(
                    micro as int,
                    1,
                    MICROS_PER_SECOND as int,
                );
                vstd::arithmetic::div_mod::lemma_div_basics(micro as int);
            }
        }
        TimeTick { sec: sec + micro / MICROS_PER_SECOND, micro: micro % MICROS_PER_SECOND }
    }

    /// Advances the clock by `delta` microseconds, carrying whole seconds
    /// out of the remainder.
    pub fn advance(&mut self, delta: u64)
        requires
            old(self).wf(),
            old(self).as_micros() + delta <= MAX_CLOCK_SECONDS * MICROS_PER_SECOND,
        ensures
            final(self).wf(),
            final(self).as_micros() == old(self).as_micros() + delta,
    {
        proof {
            lemma_fundamental_div_mod(delta as int, MICROS_PER_SECOND as int);
            lemma_mod_bound(delta as int, MICROS_PER_SECOND as int);
        }
        let total: u64 = self.micro + delta % MICROS_PER_SECOND;
        let carry_sec: u64 = delta / MICROS_PER_SECOND;
        proof {
            lemma_fundamental_div_mod(total as int, MICROS_PER_SECOND as int);
            lemma_mod_bound(total as int, MICROS_PER_SECOND as int);
        }
        self.sec = self.sec + carry_sec + total / MICROS_PER_SECOND;
        self.micro = total % MICROS_PER_SECOND;
    }

    /// Non-negative duration from `other` to `self`, borrowing one second
    /// when the remainder would go negative; clamps at zero when `other`
    /// lies ahead of `self`.
    pub fn subtract(&self, other: &TimeTick) -> (r: TimeTick)
        requires
            self.wf(),
            other.wf(),
        ensures
            r.wf(),
            r == self.subtracted(*other),
            r.as_micros() == if self.as_micros() >= other.as_micros() {
                self.as_micros() - other.as_micros()
            } else {
                0
            },
    {
        let r = if self.sec > other.sec {
            if self.micro < other.micro {
                TimeTick {
                    sec: (self.sec - 1) - other.sec,
                    micro: (self.micro + MICROS_PER_SECOND) - other.micro,
                }
            } else {
                TimeTick { sec: self.sec - other.sec, micro: self.micro - other.micro }
            }
        } else if self.sec == other.sec && self.micro >= other.micro {
            TimeTick { sec: 0, micro: self.micro - other.micro }
        } else {
            TimeTick { sec: 0, micro: 0 }
        };
        proof {
            let d = if self.as_micros() >= other.as_micros() {
                self.as_micros() - other.as_micros()
            } else {
                0
            };
            lemma_from_micros(d);
            lemma_as_micros_injective(r, TimeTick::from_micros(d));
        }
        r
    }

    /// The clock moved forward by `other`, normalizing the remainder.
    pub fn add_back(&self, other: &TimeTick) -> (r: TimeTick)
        requires
            self.wf(),
            other.wf(),
            self.as_micros() + other.as_micros() <= MAX_CLOCK_SECONDS * MICROS_PER_SECOND,
        ensures
            r.wf(),
            r == self.added(*other),
            r.as_micros() == self.as_micros() + other.as_micros(),
    {
        let total: u64 = self.micro + other.micro;
        let carry: u64 = if total >= MICROS_PER_SECOND {
            1
        } else {
            0
        };
        let r = TimeTick {
            sec: self.sec + other.sec + carry,
            micro: total - carry * MICROS_PER_SECOND,
        };
        proof {
            lemma_from_micros(self.as_micros() + other.as_micros());
            lemma_as_micros_injective(
                r,
                TimeTick::from_micros(self.as_micros() + other.as_micros()),
            );
        }
        r
    }

    /// Lexicographic `self <= other`, equivalently total-microsecond order.
    pub fn le(&self, other: &TimeTick) -> (r: bool)
        requires
            self.wf(),
            other.wf(),
        ensures
            r == (self.as_micros() <= other.as_micros()),
    {
        self.sec < other.sec || (self.sec == other.sec && self.micro <= other.micro)
    }

    /// Lexicographic `self < other`.
    pub fn lt(&self, other: &TimeTick) -> (r: bool)
        requires
            self.wf(),
            other.wf(),
        ensures
            r == (self.as_micros() < other.as_micros()),
    {
        self.sec < other.sec || (self.sec == other.sec && self.micro < other.micro)
    }

    /// Total microseconds as an executable value.
    pub fn total_micros(&self) -> (r: u64)
        requires
            self.wf(),
        ensures
            r == self.as_micros(),
    {
        self.sec * MICROS_PER_SECOND + self.micro
    }
}

/// A microsecond count within the clock bound normalizes to a well-formed
/// tick holding exactly that count.
pub proof fn lemma_from_micros(t: int)
    requires
        0 <= t < (MAX_CLOCK_SECONDS + 1) * MICROS_PER_SECOND,
    ensures
        TimeTick::from_micros(t).wf(),
        TimeTick::from_micros(t).as_micros() == t,
{
    lemma_fundamental_div_mod(t, MICROS_PER_SECOND as int);
    lemma_mod_bound(t, MICROS_PER_SECOND as int);
    assert(t / (MICROS_PER_SECOND as int) <= MAX_CLOCK_SECONDS) by {
        vstd::arithmetic::div_mod::lemma_multiply_divide_lt(
            t,
            MICROS_PER_SECOND as int,
            MAX_CLOCK_SECONDS + 1,
        );
    }
}

/// Two normalized ticks holding the same total microseconds are the same
/// tick: the normal form is unique.
pub proof fn lemma_as_micros_injective(a: TimeTick, b: TimeTick)
    requires
        a.micro < MICROS_PER_SECOND,
        b.micro < MICROS_PER_SECOND,
        a.as_micros() == b.as_micros(),
    ensures
        a == b,
{
    lemma_fundamental_div_mod_converse(
        a.as_micros(),
        MICROS_PER_SECOND as int,
        a.sec as int,
        a.micro as int,
    );
    lemma_fundamental_div_mod_converse(
        b.as_micros(),
        MICROS_PER_SECOND as int,
        b.sec as int,
        b.micro as int,
    );
}

/// Round trip: for ticks `a >= b`, subtracting `b` and adding it back
/// restores `a` exactly.
pub proof fn lemma_subtract_add_back_round_trip(a: TimeTick, b: TimeTick)
    requires
        a.wf(),
        b.wf(),
        b.as_micros() <= a.as_micros(),
    ensures
        a.subtracted(b).added(b) == a,
{
    let d = a.as_micros() - b.as_micros();
    lemma_from_micros(d);
    let s = a.subtracted(b);
    lemma_from_micros(a.as_micros());
    lemma_as_micros_injective(s.added(b), a);
}

} // verus!
