//! The decision: which limit, if any, stops trading, and how the breach is
//! reported.
//!
//! The limits are tried in a fixed order (balance floor, daily loss, run of
//! losses) and the first one that is breached is the one reported, so a halt
//! always names exactly one condition.

use vstd::prelude::*;

use crate::decimal::{decimal, push_decimal, push_signed_decimal, signed_decimal};
use crate::text::{lemma_mentions_middle, mentions};
use crate::types::{Config, Stats};

verus! {

/// The limit that stopped trading, with the values that its message reports.
#[derive(Clone, Copy, Debug, PartialEq, Eq, Structural)]
pub enum HaltReason {
    /// The balance is below the configured floor.
    BalanceBelowMinimum { balance_cents: u64, min_balance_cents: u64 },
    /// The day's loss has reached the configured maximum.
    DailyLossLimit { today_pnl_cents: i64 },
    /// The run of lost trades has reached the configured maximum.
    ConsecutiveLosses { losses: u32 },
}

/// The balance is below the floor.
pub open spec fn below_floor(balance_cents: u64, config: Config) -> bool {
    balance_cents < config.min_balance_cents
}

/// The day's profit or loss is at or under the negated loss limit. The
/// boundary counts: a loss of exactly the limit has reached it.
pub open spec fn daily_loss_reached(stats: Stats, config: Config) -> bool {
    stats.today_pnl_cents as int <= -(config.max_daily_loss_cents as int)
}

/// The streak is at or under the negated limit on consecutive losses. The
/// boundary counts here too.
pub open spec fn loss_streak_reached(stats: Stats, config: Config) -> bool {
    stats.current_streak as int <= -(config.max_consecutive_losses as int)
}

/// The decision: the first breached limit in the order balance floor,
/// daily loss, consecutive losses, or `None` where no limit is breached.
///
/// Where the streak has reached its limit, the run of losses lies between the
/// limit and 2^31, so the number reported is the run itself.
pub open spec fn verdict(stats: Stats, balance_cents: u64, config: Config) -> Option<HaltReason> {
    if below_floor(balance_cents, config) {
        Some(
            HaltReason::BalanceBelowMinimum {
                balance_cents,
                min_balance_cents: config.min_balance_cents,
            },
        )
    } else if daily_loss_reached(stats, config) {
        Some(HaltReason::DailyLossLimit { today_pnl_cents: stats.today_pnl_cents })
    } else if loss_streak_reached(stats, config) {
        Some(HaltReason::ConsecutiveLosses { losses: stats.loss_streak() as u32 })
    } else {
        None
    }
}

impl HaltReason {
    /// The line that reports this halt to the operator.
    pub open spec fn message(self) -> Seq<char> {
        match self {
            HaltReason::BalanceBelowMinimum { balance_cents, min_balance_cents } => {
                "Balance "@ + decimal(balance_cents as nat) + "¢ < "@
                    + decimal(min_balance_cents as nat) + "¢ minimum"@
            },
            HaltReason::DailyLossLimit { today_pnl_cents } => {
                "Daily loss: "@ + signed_decimal(today_pnl_cents as int) + "¢"@
            },
            HaltReason::ConsecutiveLosses { losses } => {
                decimal(losses as nat) + "× consecutive losses"@
            },
        }
    }

    /// Every message names what was breached: the balance message holds the
    /// word "minimum", the balance and the floor; the daily-loss message holds
    /// the signed profit or loss; the streak message holds the number of
    /// losses in a row.
    pub proof fn lemma_message_mentions(self)
        ensures
            match self {
                HaltReason::BalanceBelowMinimum { balance_cents, min_balance_cents } => {
                    &&& mentions(self.message(), "minimum"@)
                    &&& mentions(self.message(), decimal(balance_cents as nat))
                    &&& mentions(self.message(), decimal(min_balance_cents as nat))
                },
                HaltReason::DailyLossLimit { today_pnl_cents } => {
                    mentions(self.message(), signed_decimal(today_pnl_cents as int))
                },
                HaltReason::ConsecutiveLosses { losses } => {
                    mentions(self.message(), decimal(losses as nat))
                },
            },
    {
        let nothing = Seq::<char>::empty();
        match self {
            HaltReason::BalanceBelowMinimum { balance_cents, min_balance_cents } => {
                let balance = decimal(balance_cents as nat);
                let floor = decimal(min_balance_cents as nat);
                let up_to_floor = "Balance "@ + balance + "¢ < "@;
                let after_balance = "¢ < "@ + floor + "¢ minimum"@;
                reveal_strlit("¢ minimum");
                reveal_strlit("¢ ");
                reveal_strlit("minimum");
                assert("¢ minimum"@ =~= "¢ "@ + "minimum"@);
                lemma_mentions_middle(up_to_floor + floor + "¢ "@, "minimum"@, nothing);
                assert(self.message() =~= up_to_floor + floor + "¢ "@ + "minimum"@ + nothing);
                lemma_mentions_middle("Balance "@, balance, after_balance);
                assert(self.message() =~= "Balance "@ + balance + after_balance);
                lemma_mentions_middle(up_to_floor, floor, "¢ minimum"@);
            },
            HaltReason::DailyLossLimit { today_pnl_cents } => {
                let value = signed_decimal(today_pnl_cents as int);
                lemma_mentions_middle("Daily loss: "@, value, "¢"@);
            },
            HaltReason::ConsecutiveLosses { losses } => {
                let count = decimal(losses as nat);
                lemma_mentions_middle(nothing, count, "× consecutive losses"@);
                assert(self.message() =~= nothing + count + "× consecutive losses"@);
            },
        }
    }

    /// Renders the halt as text.
    pub fn describe(&self) -> (text: String)
        ensures
            text@ == self.message(),
    {
        let mut text = String::new();
        match *self {
            HaltReason::BalanceBelowMinimum { balance_cents, min_balance_cents } => {
                text.append("Balance ");
                push_decimal(&mut text, balance_cents);
                text.append("¢ < ");
                push_decimal(&mut text, min_balance_cents);
                text.append("¢ minimum");
            },
            HaltReason::DailyLossLimit { today_pnl_cents } => {
                text.append("Daily loss: ");
                push_signed_decimal(&mut text, today_pnl_cents);
                text.append("¢");
            },
            HaltReason::ConsecutiveLosses { losses } => {
                push_decimal(&mut text, losses as u64);
                text.append("× consecutive losses");
            },
        }
        assert(text@ =~= self.message());
        text
    }
}

/// What `check` returns as text, for each input.
pub open spec fn halt_message(
    stats: Stats,
    balance_cents: u64,
    config: Config,
) -> Option<Seq<char>> {
    match verdict(stats, balance_cents, config) {
        Some(reason) => Some(reason.message()),
        None => None,
    }
}

/// `halt` is a halt whose message mentions `part`.
pub open spec fn halts_mentioning(halt: Option<String>, part: Seq<char>) -> bool {
    halt matches Some(text) && mentions(text@, part)
}

/// Decides whether trading may go on. Returns the first breached limit, or
/// `None` where trading may proceed. A reported run of losses is the streak
/// with its sign dropped.
pub fn evaluate(
    stats: &Stats,
    balance_cents: u64,
    config: &Config,
) -> (outcome: Option<HaltReason>)
    ensures
        outcome == verdict(*stats, balance_cents, *config),
        outcome matches Some(HaltReason::ConsecutiveLosses { losses })
            ==> losses == stats.loss_streak(),
{
    if balance_cents < config.min_balance_cents {
        return Some(
            HaltReason::BalanceBelowMinimum {
                balance_cents,
                min_balance_cents: config.min_balance_cents,
            },
        );
    }
    if stats.today_pnl_cents as i128 <= -(config.max_daily_loss_cents as i128) {
        return Some(HaltReason::DailyLossLimit { today_pnl_cents: stats.today_pnl_cents });
    }
    let loss_streak: i64 = -(stats.current_streak as i64);
    if loss_streak >= config.max_consecutive_losses as i64 {
        return Some(HaltReason::ConsecutiveLosses { losses: loss_streak as u32 });
    }
    None
}

/// Decides and renders the answer: the halt message of the first
/// breached limit, or `None` where trading may proceed.
///
/// Below the balance floor the answer is a halt that mentions "minimum",
/// whatever the statistics are. At or above the floor, a day's loss that has
/// reached its limit gives a halt that mentions the signed profit or loss; if
/// that limit holds too, a run of losses that has reached its limit gives a
/// halt that mentions the length of the run. Where the balance is at or above
/// the floor and both the day's loss and the run of losses are under their
/// limits, there is no halt.
pub fn check(stats: &Stats, balance_cents: u64, config: &Config) -> (halt: Option<String>)
    ensures
        halt.deep_view() == halt_message(*stats, balance_cents, *config),
        balance_cents < config.min_balance_cents
            ==> halts_mentioning(halt, "minimum"@),
        balance_cents >= config.min_balance_cents
            && daily_loss_reached(*stats, *config)
            ==> halts_mentioning(halt, signed_decimal(stats.today_pnl_cents as int)),
        balance_cents >= config.min_balance_cents
            && !daily_loss_reached(*stats, *config)
            && loss_streak_reached(*stats, *config)
            ==> halts_mentioning(halt, decimal(stats.loss_streak() as nat)),
        balance_cents >= config.min_balance_cents
            && stats.daily_loss() < config.max_daily_loss_cents
            && stats.loss_streak() < config.max_consecutive_losses
            ==> halt is None,
{
    match evaluate(stats, balance_cents, config) {
        Some(reason) => {
            proof {
                reason.lemma_message_mentions();
            }
            Some(reason.describe())
        },
        None => None,
    }
}

} // verus!
