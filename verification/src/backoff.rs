//! Delay schedule for repeated attempts at a remote operation.

use vstd::prelude::*;

verus! {

/// Schedule describing how long to wait between repeated attempts at an
/// operation: an initial delay that grows by an integer factor after each
/// failed attempt, capped at a maximum. All delays are in milliseconds.
#[derive(Debug)]
pub struct BackoffSchedule {
    /// Delay slept after the first failed attempt.
    pub init_delay_ms: u64,
    /// Upper bound on any single delay.
    pub max_delay_ms: u64,
    /// Factor by which the delay grows after each further failed attempt.
    pub multiplier: u64,
}

impl BackoffSchedule {
    /// How a delay grows from one retry to the next: multiply, then cap.
    pub open spec fn grown(self, prev: u64) -> u64 {
        if prev * self.multiplier > self.max_delay_ms {
            self.max_delay_ms
        } else {
            (prev * self.multiplier) as u64
        }
    }

    /// The delay scheduled before retry number `n` (zero-based).
    pub open spec fn delay_at(self, n: nat) -> u64
        decreases n,
    {
        if n == 0 {
            if self.init_delay_ms <= self.max_delay_ms {
                self.init_delay_ms
            } else {
                self.max_delay_ms
            }
        } else {
            self.grown(self.delay_at((n - 1) as nat))
        }
    }

    /// The delay slept after the first failed attempt.
    pub fn first_delay(&self) -> (r: u64)
        ensures
            r == self.delay_at(0),
    {
        if self.init_delay_ms <= self.max_delay_ms {
            self.init_delay_ms
        } else {
            self.max_delay_ms
        }
    }

    /// The delay that follows `cur` in the schedule.
    pub fn next_delay(&self, cur: u64) -> (r: u64)
        ensures
            r == self.grown(cur),
    {
        match cur.checked_mul(self.multiplier) {
            Some(grown) => {
                if grown > self.max_delay_ms {
                    self.max_delay_ms
                } else {
                    grown
                }
            },
            None => self.max_delay_ms,
        }
    }
}

} // verus!
