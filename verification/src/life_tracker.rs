//! Smoothed life totals: a target value and a displayed value that catches
//! up by one unit every fixed number of frames.

use crate::digits::{
    all_digits, dec_rep_signed, dec_val, i64_to_string, parse_i32, parse_u32, signed_val,
    valid_signed_literal,
};
use vstd::pervasive::unreached;
use vstd::prelude::*;
use vstd::string::StrSliceExecFns;

verus! {

/// How an update token changes the life target.
#[derive(Clone, Copy, Debug, PartialEq, Eq, Structural)]
pub enum Operation {
    Add,
    Sub,
    Equal,
}

/// The operation denoted by an update token's first character.
pub open spec fn op_of_char(c: char) -> Option<Operation> {
    if c == '+' {
        Some(Operation::Add)
    } else if c == '-' {
        Some(Operation::Sub)
    } else if c == '=' {
        Some(Operation::Equal)
    } else {
        None
    }
}

impl Operation {
    /// The operation for an operator character, if it is one.
    pub fn from_char(c: &char) -> (r: Option<Operation>)
        ensures
            r == op_of_char(*c),
    {
        match c {
            '+' => Some(Operation::Add),
            '-' => Some(Operation::Sub),
            '=' => Some(Operation::Equal),
            _ => None,
        }
    }
}

/// A well-formed update token: an operator character followed by a decimal
/// magnitude no larger than `i32::MAX`.
pub open spec fn valid_update(s: Seq<char>) -> bool {
    &&& s.len() >= 2
    &&& op_of_char(s[0]) is Some
    &&& all_digits(s.skip(1))
    &&& dec_val(s.skip(1)) <= i32::MAX
}

/// The target value after applying a parsed update to `target`: additions
/// saturate at `i32::MAX`, subtractions are floored at zero, and `Equal`
/// replaces the target outright.
pub open spec fn applied_update(target: int, op: Operation, val: int) -> int {
    match op {
        Operation::Add => if target + val > i32::MAX {
            i32::MAX as int
        } else {
            target + val
        },
        Operation::Sub => if target - val < 0 {
            0
        } else {
            target - val
        },
        Operation::Equal => val,
    }
}

/// The displayed value after one smoothing step toward `target`.
pub open spec fn stepped_toward(displayed: int, target: int) -> int {
    if target > displayed {
        displayed + 1
    } else if target < displayed {
        displayed - 1
    } else {
        displayed
    }
}

/// Tracks a player's life: `current` is the true target, `display` the
/// value shown on screen, moving one unit toward `current` every
/// `ticker_max` frames.
pub struct LifeTracker {
    pub current: i32,
    pub display: i32,
    pub ticker: u32,
    pub ticker_max: u32,
}

impl LifeTracker {
    /// The frame counter always stays below its wrap point, which is at
    /// least one.
    pub open spec fn wf(self) -> bool {
        self.ticker < self.ticker_max
    }

    /// A tracker whose target and displayed value both start at the given
    /// life total; the displayed value moves one unit every
    /// `tick_rate / increment` frames (at least one), where both are in
    /// microseconds.
    pub fn build(starting_life: &str, tick_rate: u64, increment: u64) -> (r: LifeTracker)
        requires
            valid_signed_literal(starting_life@),
            i32::MIN <= signed_val(starting_life@) <= i32::MAX,
            increment >= 1,
        ensures
            r.wf(),
            r.current == signed_val(starting_life@),
            r.display == signed_val(starting_life@),
            r.ticker == 0,
            r.ticker_max == if tick_rate / increment == 0 {
                1u32
            } else if tick_rate / increment > u32::MAX {
                u32::MAX as u32
            } else {
                (tick_rate / increment) as u32
            },
    {
        let value: i32 = match parse_i32(starting_life) {
            Some(v) => v,
            None => unreached(),
        };
        let steps: u64 = tick_rate / increment;
        let ticker_max: u32 = if steps == 0 {
            1
        } else if steps > u32::MAX as u64 {
            u32::MAX
        } else {
            steps as u32
        };
        LifeTracker { current: value, display: value, ticker: 0, ticker_max }
    }

    /// Splits an update token into its operation and magnitude; malformed
    /// tokens (no operator, a bad operator, a non-numeric or oversized
    /// magnitude) are rejected with a message saying which part was wrong.
    pub fn parse_update(update: &str) -> (r: Result<(Operation, i32), String>)
        ensures
            r is Ok <==> valid_update(update@),
            r is Ok ==> r->Ok_0.0 == op_of_char(update@[0])->0 && r->Ok_0.1 == dec_val(
                update@.skip(1),
            ),
            update@.len() == 0 ==> r is Err && r->Err_0@ == "Update missing operation"@,
            update@.len() > 0 && op_of_char(update@[0]) is None ==> r is Err && r->Err_0@
                == "Update does not have valid operation"@,
            update@.len() > 0 && op_of_char(update@[0]) is Some && !valid_update(update@) ==> r
                is Err && r->Err_0@ == "Update value is not an integer"@,
    {
        let n = update.unicode_len();
        if n == 0 {
            return Err("Update missing operation".to_owned());
        }
        let c = update.get_char(0);
        let operation = match Operation::from_char(&c) {
            Some(op) => op,
            None => {
                return Err("Update does not have valid operation".to_owned());
            },
        };
        let rest = update.substring_char(1, n);
        proof {
            assert(rest@ =~= update@.skip(1));
        }
        match parse_u32(rest) {
            Some(v) => {
                if v <= i32::MAX as u32 {
                    Ok((operation, v as i32))
                } else {
                    Err("Update value is not an integer".to_owned())
                }
            },
            None => {
                proof {
                    if valid_update(update@) {
                        crate::digits::lemma_dec_val_nonneg(update@.skip(1));
                    }
                }
                Err("Update value is not an integer".to_owned())
            },
        }
    }

    /// Applies an update token to the target value; a malformed token is
    /// reported and leaves the tracker unchanged.
    pub fn update(&mut self, update: &str) -> (r: Result<(), String>)
        requires
            old(self).wf(),
        ensures
            final(self).wf(),
            r is Ok <==> valid_update(update@),
            r is Ok ==> final(self).current == applied_update(
                old(self).current as int,
                op_of_char(update@[0])->0,
                dec_val(update@.skip(1)),
            ),
            r is Err ==> final(self).current == old(self).current,
            final(self).display == old(self).display,
            final(self).ticker == old(self).ticker,
            final(self).ticker_max == old(self).ticker_max,
    {
        let (operation, val) = match Self::parse_update(update) {
            Ok(parsed) => parsed,
            Err(message) => {
                return Err(message);
            },
        };
        proof {
            crate::digits::lemma_dec_val_nonneg(update@.skip(1));
        }
        let wide: i64 = match operation {
            Operation::Add => self.current as i64 + val as i64,
            Operation::Sub => {
                let diff: i64 = self.current as i64 - val as i64;
                if diff < 0 {
                    0
                } else {
                    diff
                }
            },
            Operation::Equal => val as i64,
        };
        let clamped: i64 = if wide > i32::MAX as i64 {
            i32::MAX as i64
        } else {
            wide
        };
        self.current = clamped as i32;
        Ok(())
    }

    /// Advances the frame counter; when it wraps, moves the displayed value
    /// one unit toward the target, never overshooting it.
    pub fn tick_display(&mut self)
        requires
            old(self).wf(),
        ensures
            final(self).wf(),
            final(self).current == old(self).current,
            final(self).ticker_max == old(self).ticker_max,
            old(self).ticker + 1 == old(self).ticker_max ==> final(self).ticker == 0
                && final(self).display == stepped_toward(
                old(self).display as int,
                old(self).current as int,
            ),
            old(self).ticker + 1 < old(self).ticker_max ==> final(self).ticker == old(self).ticker
                + 1 && final(self).display == old(self).display,
    {
        self.ticker = self.ticker + 1;
        if self.ticker == self.ticker_max {
            self.ticker = 0;
            if self.current > self.display {
                self.display = self.display + 1;
            } else if self.current < self.display {
                self.display = self.display - 1;
            }
        }
    }

    /// The displayed life total rendered as decimal text.
    pub fn display(&self) -> (r: String)
        ensures
            r@ == dec_rep_signed(self.display as int),
    {
        i64_to_string(self.display as i64)
    }

    /// The true target value.
    pub fn target(&self) -> (r: i32)
        ensures
            r == self.current,
    {
        self.current
    }

    /// The value currently shown on screen.
    pub fn displayed(&self) -> (r: i32)
        ensures
            r == self.display,
    {
        self.display
    }
}

/// Smoothing never overshoots: each step moves the displayed value one
/// unit toward the target, or leaves it alone once they meet, so the gap
/// shrinks by exactly one until it reaches zero and then stays there.
pub proof fn lemma_display_never_overshoots(displayed: int, target: int)
    ensures
        displayed != target ==> vstd::math::abs(target - stepped_toward(displayed, target))
            == vstd::math::abs(target - displayed) - 1,
        displayed == target ==> stepped_toward(displayed, target) == displayed,
{
}

} // verus!
