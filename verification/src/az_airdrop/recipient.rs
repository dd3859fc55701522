//! A recipient's entitlement and the schedule that releases it.

use crate::primitives::{Balance, Timestamp};
use crate::wide::{lemma_mul_div_bounded, lemma_mul_div_monotonic, mul_div, share};
use vstd::prelude::*;

verus! {

/// What one recipient was promised, what they took, and how it unlocks.
#[derive(Clone, Copy, Debug, PartialEq, Eq, Structural)]
pub struct Recipient {
    /// Everything allocated to the recipient so far.
    pub total_amount: Balance,
    /// What the recipient has already withdrawn.
    pub collected: Balance,
    /// Percentage of `total_amount` that unlocks when distribution starts.
    pub collectable_at_tge_percentage: u8,
    /// Milliseconds after the start before the rest begins to vest.
    pub cliff_duration: Timestamp,
    /// Milliseconds over which the rest vests linearly.
    pub vesting_duration: Timestamp,
}

/// The part of `total` that unlocks at the start of distribution.
pub open spec fn tge_amount(total: nat, percentage: nat) -> nat {
    mul_div(total, percentage, 100)
}

/// The smaller of two amounts.
pub open spec fn least(a: nat, b: nat) -> nat {
    if a <= b {
        a
    } else {
        b
    }
}

impl Recipient {
    /// The percentage is at most 100.
    pub open spec fn percentage_ok(self) -> bool {
        self.collectable_at_tge_percentage <= 100
    }

    /// Nothing was withdrawn beyond what was allocated.
    pub open spec fn sound(self) -> bool {
        self.collected <= self.total_amount
    }

    /// What is still owed: allocated and not yet withdrawn.
    pub open spec fn outstanding(self) -> int {
        self.total_amount - self.collected
    }

    /// Cumulative amount unlocked at `now` when distribution starts at
    /// `start`: nothing before the start; the TGE part from the start until
    /// the cliff has passed; then the TGE part plus the elapsed share of the
    /// rest, the elapsed time capped at the vesting duration; never more than
    /// the total.
    pub open spec fn unlocked(self, start: Timestamp, now: Timestamp) -> nat {
        let total = self.total_amount as nat;
        let tge = tge_amount(total, self.collectable_at_tge_percentage as nat);
        let vesting_start = start + self.cliff_duration;
        if now < start {
            0
        } else if self.vesting_duration == 0 || now < vesting_start {
            least(tge, total)
        } else {
            let elapsed = least((now - vesting_start) as nat, self.vesting_duration as nat);
            let pool = (total - tge) as nat;
            least(tge + mul_div(pool, elapsed, self.vesting_duration as nat), total)
        }
    }

    /// What can be withdrawn at `now`: the unlocked amount less what was
    /// already collected, and never below zero.
    pub open spec fn collectable(self, start: Timestamp, now: Timestamp) -> nat {
        let unlocked = self.unlocked(start, now);
        if unlocked >= self.collected {
            (unlocked - self.collected) as nat
        } else {
            0
        }
    }

    /// Computes `unlocked`.
    pub fn unlocked_amount(&self, start: Timestamp, now: Timestamp) -> (r: Balance)
        requires
            self.percentage_ok(),
        ensures
            r == self.unlocked(start, now),
            r <= self.total_amount,
    {
        if now < start {
            return 0;
        }
        let tge: Balance = share(self.total_amount, self.collectable_at_tge_percentage as u64, 100);
        let vesting_start: u128 = start as u128 + self.cliff_duration as u128;
        if self.vesting_duration == 0 || (now as u128) < vesting_start {
            return tge;
        }
        let reached: u64 = now - (vesting_start as u64);
        let elapsed: u64 = if reached <= self.vesting_duration {
            reached
        } else {
            self.vesting_duration
        };
        let pool: Balance = self.total_amount - tge;
        let vested: Balance = share(pool, elapsed, self.vesting_duration);
        tge + vested
    }

    /// Computes `collectable`.
    pub fn collectable_amount(&self, start: Timestamp, now: Timestamp) -> (r: Balance)
        requires
            self.percentage_ok(),
        ensures
            r == self.collectable(start, now),
            self.sound() ==> 0 <= r <= self.total_amount - self.collected,
    {
        self.unlocked_amount(start, now).saturating_sub(self.collected)
    }

    /// The unlocked amount never exceeds the total.
    pub proof fn lemma_unlocked_bounded(self, start: Timestamp, now: Timestamp)
        ensures
            self.unlocked(start, now) <= self.total_amount,
    {
    }

    /// What can be withdrawn is never negative and never more than what is
    /// still owed.
    pub proof fn lemma_collectable_bounded(self, start: Timestamp, now: Timestamp)
        requires
            self.sound(),
        ensures
            0 <= self.collectable(start, now) <= self.outstanding(),
    {
    }

    /// For a fixed entitlement and start, the unlocked amount never shrinks
    /// as time advances.
    pub proof fn lemma_unlocked_monotonic(self, start: Timestamp, t1: Timestamp, t2: Timestamp)
        requires
            self.percentage_ok(),
            t1 <= t2,
        ensures
            self.unlocked(start, t1) <= self.unlocked(start, t2),
    {
        let total = self.total_amount as nat;
        let tge = tge_amount(total, self.collectable_at_tge_percentage as nat);
        lemma_mul_div_bounded(total, self.collectable_at_tge_percentage as nat, 100);
        let vesting_start = start + self.cliff_duration;
        if self.vesting_duration > 0 && t1 >= start && t1 >= vesting_start {
            let e1 = least((t1 - vesting_start) as nat, self.vesting_duration as nat);
            let e2 = least((t2 - vesting_start) as nat, self.vesting_duration as nat);
            lemma_mul_div_monotonic((total - tge) as nat, e1, e2, self.vesting_duration as nat);
        }
    }
}

} // verus!
