//! The betting operations that tie the entities together: placing a bet,
//! claiming winnings on a resolved event, and claiming the refund on a
//! cancelled one. Each validates everything first and mutates nothing on
//! error; the substrate then moves exactly the returned amounts between
//! the caller and the event's vaults.

use vstd::prelude::*;

use crate::bet::UserBet;
use crate::errors::PredictionError;
use crate::event::EventStatus;
use crate::event::Outcome;
use crate::event::PredictionEvent;
use crate::event::payout_of;
use crate::platform::PlatformConfig;
use crate::stats::UserStats;
use crate::stats::clamp_add_u64;
use crate::stats::stats_claimed_by;
use crate::stats::stats_after_bet;
use crate::stats::stats_after_win;

verus! {

/// The error `place_bet` reports, in check order; `None` means the bet is
/// owed.
pub open spec fn place_bet_err(event: PredictionEvent, config: PlatformConfig, outcome: Outcome, amount: u64, now: i64) -> Option<PredictionError> {
    if config.paused {
        Some(PredictionError::PlatformPaused)
    } else if amount == 0 {
        Some(PredictionError::InvalidBetAmount)
    } else if !(event.status == EventStatus::Active && now < event.deadline) {
        Some(PredictionError::EventEnded)
    } else if (if outcome == Outcome::Doom {
        event.doom_pool
    } else {
        event.life_pool
    }) + amount > u64::MAX {
        Some(PredictionError::Overflow)
    } else {
        None
    }
}

/// Places a bet of `amount` on `outcome` while the betting window is open.
/// The substrate escrows `amount` into the side's vault; here the side's
/// pool grows by it, the bettor counter ticks, the bet record is created,
/// and both the user's and the platform's counters are updated.
pub fn place_bet(event: &mut PredictionEvent, config: &mut PlatformConfig, stats: &mut UserStats, user: u64, outcome: Outcome, amount: u64, now: i64, bump: u8) -> (r: Result<UserBet, PredictionError>)
    requires
        old(event).wf(),
    ensures
        final(event).wf(),
        match r {
            Ok(bet) => {
                &&& place_bet_err(*old(event), *old(config), outcome, amount, now) is None
                &&& bet == (UserBet {
                    event: old(event).event_id,
                    user,
                    outcome,
                    amount,
                    placed_at: now,
                    claimed: false,
                    refunded: false,
                    bump,
                })
                &&& bet.wf()
                &&& *final(event) == (PredictionEvent {
                    doom_pool: if outcome == Outcome::Doom {
                        (old(event).doom_pool + amount) as u64
                    } else {
                        old(event).doom_pool
                    },
                    life_pool: if outcome == Outcome::Life {
                        (old(event).life_pool + amount) as u64
                    } else {
                        old(event).life_pool
                    },
                    total_bettors: clamp_add_u64(old(event).total_bettors, 1) as u64,
                    ..*old(event)
                })
                &&& *final(stats) == stats_after_bet(stats_claimed_by(*old(stats), user), amount, now)
                &&& *final(config) == (PlatformConfig {
                    total_bets: clamp_add_u64(old(config).total_bets, 1) as u64,
                    ..*old(config)
                })
            },
            Err(e) => {
                &&& place_bet_err(*old(event), *old(config), outcome, amount, now) == Some(e)
                &&& *final(event) == *old(event)
                &&& *final(stats) == *old(stats)
                &&& *final(config) == *old(config)
            },
        },
{
    if config.paused {
        return Err(PredictionError::PlatformPaused);
    }
    if amount == 0 {
        return Err(PredictionError::InvalidBetAmount);
    }
    if !(event.status == EventStatus::Active && now < event.deadline) {
        return Err(PredictionError::EventEnded);
    }

    match outcome {
        Outcome::Doom => {
            let new_pool = match event.doom_pool.checked_add(amount) {
                Some(v) => v,
                None => { return Err(PredictionError::Overflow); },
            };
            event.doom_pool = new_pool;
        },
        Outcome::Life => {
            let new_pool = match event.life_pool.checked_add(amount) {
                Some(v) => v,
                None => { return Err(PredictionError::Overflow); },
            };
            event.life_pool = new_pool;
        },
    }
    event.total_bettors = event.total_bettors.saturating_add(1);

    if stats.user == 0 {
        stats.user = user;
    }
    stats.record_bet(amount, now);

    config.total_bets = config.total_bets.saturating_add(1);

    Ok(UserBet {
        event: event.event_id,
        user,
        outcome,
        amount,
        placed_at: now,
        claimed: false,
        refunded: false,
        bump,
    })
}

/// The error `claim_winnings` reports, in check order; `None` means the
/// payout is owed.
pub open spec fn claim_winnings_err(event: PredictionEvent, bet: UserBet, config: PlatformConfig) -> Option<PredictionError> {
    if event.status != EventStatus::Resolved {
        Some(PredictionError::EventNotResolved)
    } else if bet.claimed {
        Some(PredictionError::AlreadyClaimed)
    } else if event.outcome != Some(bet.outcome) {
        Some(PredictionError::NotAWinner)
    } else if payout_of(event, bet.amount, bet.outcome, config.fee_basis_points) is None {
        Some(PredictionError::NoWinnings)
    } else {
        None
    }
}

/// Pays out a winning bet on a resolved event: the stake comes back from
/// the winning-side vault and the fee-adjusted share of the losing pool
/// from the losing-side vault, whose token also pays the platform fee.
/// Marks the bet claimed and records the win.
pub fn claim_winnings(event: &PredictionEvent, bet: &mut UserBet, config: &mut PlatformConfig, stats: &mut UserStats) -> (r: Result<(u64, u64), PredictionError>)
    requires
        old(config).wf(),
    ensures
        final(config).wf(),
        match r {
            Ok(amounts) => {
                &&& claim_winnings_err(*event, *old(bet), *old(config)) is None
                &&& payout_of(*event, old(bet).amount, old(bet).outcome, old(config).fee_basis_points)
                    == Some(amounts)
                &&& *final(bet) == (UserBet { claimed: true, ..*old(bet) })
                &&& *final(stats) == stats_after_win(*old(stats), old(bet).amount, amounts.0)
                &&& *final(config) == (PlatformConfig {
                    total_doom_fees: if old(bet).outcome == Outcome::Life {
                        clamp_add_u64(old(config).total_doom_fees, amounts.1) as u64
                    } else {
                        old(config).total_doom_fees
                    },
                    total_life_fees: if old(bet).outcome == Outcome::Doom {
                        clamp_add_u64(old(config).total_life_fees, amounts.1) as u64
                    } else {
                        old(config).total_life_fees
                    },
                    ..*old(config)
                })
            },
            Err(e) => {
                &&& claim_winnings_err(*event, *old(bet), *old(config)) == Some(e)
                &&& *final(bet) == *old(bet)
                &&& *final(stats) == *old(stats)
                &&& *final(config) == *old(config)
            },
        },
{
    if event.status != EventStatus::Resolved {
        return Err(PredictionError::EventNotResolved);
    }
    if bet.claimed {
        return Err(PredictionError::AlreadyClaimed);
    }
    if event.outcome != Some(bet.outcome) {
        return Err(PredictionError::NotAWinner);
    }
    let (payout, fee) = match event.calculate_payout(bet.amount, bet.outcome, config.fee_basis_points) {
        Some(amounts) => amounts,
        None => { return Err(PredictionError::NoWinnings); },
    };

    bet.claimed = true;
    stats.record_win(bet.amount, payout);
    match bet.outcome {
        Outcome::Doom => {
            config.total_life_fees = config.total_life_fees.saturating_add(fee);
        },
        Outcome::Life => {
            config.total_doom_fees = config.total_doom_fees.saturating_add(fee);
        },
    }
    Ok((payout, fee))
}

/// The error `refund_bet` reports, in check order; `None` means the refund
/// is owed.
pub open spec fn refund_bet_err(event: PredictionEvent, bet: UserBet) -> Option<PredictionError> {
    if event.status != EventStatus::Cancelled {
        Some(PredictionError::EventNotCancelled)
    } else if bet.refunded {
        Some(PredictionError::RefundAlreadyClaimed)
    } else {
        None
    }
}

/// Returns the original stake of a bet on a cancelled event, fee-free, from
/// the vault of the side wagered on; marks the bet refunded.
pub fn refund_bet(event: &PredictionEvent, bet: &mut UserBet) -> (r: Result<u64, PredictionError>)
    ensures
        match r {
            Ok(amount) => {
                &&& refund_bet_err(*event, *old(bet)) is None
                &&& amount == old(bet).amount
                &&& *final(bet) == (UserBet { refunded: true, ..*old(bet) })
            },
            Err(e) => {
                &&& refund_bet_err(*event, *old(bet)) == Some(e)
                &&& *final(bet) == *old(bet)
            },
        },
{
    if event.status != EventStatus::Cancelled {
        return Err(PredictionError::EventNotCancelled);
    }
    if bet.refunded {
        return Err(PredictionError::RefundAlreadyClaimed);
    }
    bet.refunded = true;
    Ok(bet.amount)
}

/// A claim settles a bet for good: once a claim has succeeded and marked
/// the bet, any further claim on it reports `AlreadyClaimed`; and since a
/// failed claim changes nothing, it can never pay twice.
pub proof fn lemma_claim_is_once(event: PredictionEvent, bet: UserBet, config: PlatformConfig)
    requires
        claim_winnings_err(event, bet, config) is None,
    ensures
        claim_winnings_err(event, UserBet { claimed: true, ..bet }, config)
            == Some(PredictionError::AlreadyClaimed),
{
}

/// A refund settles a bet for good in the same way.
pub proof fn lemma_refund_is_once(event: PredictionEvent, bet: UserBet)
    requires
        refund_bet_err(event, bet) is None,
    ensures
        refund_bet_err(event, UserBet { refunded: true, ..bet })
            == Some(PredictionError::RefundAlreadyClaimed),
{
}

/// Claims and refunds exclude each other on any single event: a claim is
/// owed only while the event is Resolved, a refund only while it is
/// Cancelled, and an event is never both. So after a successful claim the
/// refund fails, and after a successful refund the claim fails.
pub proof fn lemma_claim_refund_exclusive(event: PredictionEvent, bet: UserBet, config: PlatformConfig)
    ensures
        claim_winnings_err(event, bet, config) is None ==> refund_bet_err(
            event,
            UserBet { claimed: true, ..bet },
        ) == Some(PredictionError::EventNotCancelled),
        refund_bet_err(event, bet) is None ==> claim_winnings_err(
            event,
            UserBet { refunded: true, ..bet },
            config,
        ) == Some(PredictionError::EventNotResolved),
{
}

} // verus!
