//! Laws of the decision: what follows from the order in which the limits are
//! tried and from the boundaries counting as breaches.

use vstd::prelude::*;

use crate::risk::{
    below_floor, daily_loss_reached, halt_message, loss_streak_reached, verdict, HaltReason,
};
use crate::types::{Config, Stats};

verus! {

/// Each outcome comes on exactly the inputs of its own case: the balance
/// floor whenever the balance is below it, the daily loss only at or above
/// the floor, the run of losses only where the two before it hold, and no
/// halt only where all three hold.
pub proof fn lemma_first_breach_is_reported(stats: Stats, balance_cents: u64, config: Config)
    ensures
        ({
            let outcome = verdict(stats, balance_cents, config);
            let floor = below_floor(balance_cents, config);
            let loss = daily_loss_reached(stats, config);
            let streak = loss_streak_reached(stats, config);
            &&& (outcome matches Some(HaltReason::BalanceBelowMinimum { .. })) <==> floor
            &&& (outcome matches Some(HaltReason::DailyLossLimit { .. })) <==> !floor && loss
            &&& (outcome matches Some(HaltReason::ConsecutiveLosses { .. }))
                <==> !floor && !loss && streak
            &&& outcome is None <==> !floor && !loss && !streak
            &&& halt_message(stats, balance_cents, config) is None <==> outcome is None
        }),
{
}

/// With all three limits breached at once, the halt is the one for the
/// balance floor, and its message is the balance message alone.
pub proof fn lemma_balance_floor_comes_first(stats: Stats, balance_cents: u64, config: Config)
    requires
        below_floor(balance_cents, config),
        daily_loss_reached(stats, config),
        loss_streak_reached(stats, config),
    ensures
        verdict(stats, balance_cents, config) == Some(
            HaltReason::BalanceBelowMinimum {
                balance_cents,
                min_balance_cents: config.min_balance_cents,
            },
        ),
        halt_message(stats, balance_cents, config) == Some(
            (HaltReason::BalanceBelowMinimum {
                balance_cents,
                min_balance_cents: config.min_balance_cents,
            }).message(),
        ),
{
}

/// The daily-loss limit is inclusive. With no other limit breached, a profit
/// or loss of exactly the negated limit halts, and one cent more does not.
pub proof fn lemma_daily_loss_boundary(stats: Stats, balance_cents: u64, config: Config)
    requires
        !below_floor(balance_cents, config),
        !loss_streak_reached(stats, config),
    ensures
        stats.today_pnl_cents == -config.max_daily_loss_cents
            ==> verdict(stats, balance_cents, config)
                == Some(HaltReason::DailyLossLimit { today_pnl_cents: stats.today_pnl_cents }),
        stats.today_pnl_cents == -config.max_daily_loss_cents + 1
            ==> verdict(stats, balance_cents, config) is None
                && halt_message(stats, balance_cents, config) is None,
{
}

/// The limit on consecutive losses is inclusive. With no other limit
/// breached, a streak of exactly the negated limit halts and reports the
/// limit as the number of losses, and a streak one loss shorter does not.
pub proof fn lemma_loss_streak_boundary(stats: Stats, balance_cents: u64, config: Config)
    requires
        !below_floor(balance_cents, config),
        !daily_loss_reached(stats, config),
    ensures
        stats.current_streak == -config.max_consecutive_losses
            ==> verdict(stats, balance_cents, config)
                == Some(HaltReason::ConsecutiveLosses { losses: config.max_consecutive_losses }),
        stats.current_streak == -config.max_consecutive_losses + 1
            ==> verdict(stats, balance_cents, config) is None
                && halt_message(stats, balance_cents, config) is None,
{
}

} // verus!
