//! The value records that a risk decision reads.

use vstd::prelude::*;

verus! {

/// Trading statistics of the current day, supplied by the engine.
#[derive(Clone, Copy, Debug, PartialEq, Eq, Structural)]
pub struct Stats {
    /// Profit or loss accumulated today, in cents. A loss is negative.
    pub today_pnl_cents: i64,
    /// Consecutive wins (positive) or consecutive losses (negative).
    pub current_streak: i32,
}

/// The risk limits, fixed for the lifetime of the process.
#[derive(Clone, Copy, Debug, PartialEq, Eq, Structural)]
pub struct Config {
    /// Trading halts while the balance is below this floor, in cents.
    pub min_balance_cents: u64,
    /// Trading halts once the day's loss reaches this many cents.
    pub max_daily_loss_cents: u64,
    /// Trading halts once this many trades in a row were lost.
    pub max_consecutive_losses: u32,
}

impl Stats {
    /// The day's loss in cents: positive for a loss, negative for a profit.
    pub open spec fn daily_loss(self) -> int {
        -(self.today_pnl_cents as int)
    }

    /// The length of the current run of losses: negative during a run of wins.
    pub open spec fn loss_streak(self) -> int {
        -(self.current_streak as int)
    }
}

} // verus!
