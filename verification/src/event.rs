//! The prediction-event state machine. An event starts Active, takes bets
//! until its deadline, and then moves exactly once to Resolved (by the
//! oracle, inside its window) or Cancelled (by the admin, any time); both
//! are terminal. The outcome is recorded if and only if the event resolved.

use vstd::prelude::*;

use crate::errors::PredictionError;
use crate::math::BPS_DENOM;
use crate::math::lemma_fee_le_amount;
use crate::payout::net_payout;
use crate::payout::share_fee;
use crate::payout::winning_share;
use crate::platform::PlatformConfig;
use crate::stats::UserStats;

verus! {

/// Longest accepted title, in bytes.
pub const MAX_TITLE_LEN: usize = 128;

/// Longest accepted description, in bytes.
pub const MAX_DESCRIPTION_LEN: usize = 512;

/// The two sides of a prediction event.
#[derive(Clone, Copy, Debug, PartialEq, Eq, Structural)]
pub enum Outcome {
    Doom,
    Life,
}

impl Default for Outcome {
    /// The nominal side, used only where a record needs a placeholder.
    fn default() -> (r: Self)
        ensures
            r == Outcome::Doom,
    {
        Outcome::Doom
    }
}

/// Lifecycle status of an event.
#[derive(Clone, Copy, Debug, PartialEq, Eq, Structural)]
pub enum EventStatus {
    /// Accepting bets until the deadline.
    Active,
    /// Resolved with a final outcome; terminal.
    Resolved,
    /// Cancelled by the admin; bets become refundable; terminal.
    Cancelled,
}

impl Default for EventStatus {
    fn default() -> (r: Self)
        ensures
            r == EventStatus::Active,
    {
        EventStatus::Active
    }
}

/// One prediction event with its per-side pools and vault identities.
#[derive(Clone, Debug)]
pub struct PredictionEvent {
    pub event_id: u64,
    pub creator: u64,
    pub title: Vec<u8>,
    pub description: Vec<u8>,
    pub deadline: i64,
    pub resolution_deadline: i64,
    pub status: EventStatus,
    pub outcome: Option<Outcome>,
    pub doom_pool: u64,
    pub life_pool: u64,
    pub total_bettors: u64,
    pub created_at: i64,
    pub resolved_at: Option<i64>,
    pub doom_vault: u64,
    pub life_vault: u64,
    pub bump: u8,
    pub doom_vault_bump: u8,
    pub life_vault_bump: u8,
}

impl PredictionEvent {
    /// Structural invariant: the outcome and the resolution stamp are
    /// recorded exactly when the event resolved, the resolution window
    /// strictly follows the betting deadline, and the texts are bounded.
    pub open spec fn wf(self) -> bool {
        &&& self.outcome is Some <==> self.status == EventStatus::Resolved
        &&& self.resolved_at is Some <==> self.status == EventStatus::Resolved
        &&& self.deadline < self.resolution_deadline
        &&& 0 < self.title@.len() <= MAX_TITLE_LEN
        &&& 0 < self.description@.len() <= MAX_DESCRIPTION_LEN
    }

    /// The betting window is open: still active and before the deadline.
    pub fn is_betting_open(&self, current_time: i64) -> (r: bool)
        ensures
            r == (self.status == EventStatus::Active && current_time < self.deadline),
    {
        self.status == EventStatus::Active && current_time < self.deadline
    }

    /// The event can be resolved: still active and past the deadline.
    pub fn can_resolve(&self, current_time: i64) -> (r: bool)
        ensures
            r == (self.status == EventStatus::Active && current_time >= self.deadline),
    {
        self.status == EventStatus::Active && current_time >= self.deadline
    }

    /// Combined size of both pools, saturating.
    pub fn total_pool(&self) -> (r: u64)
        ensures
            r == crate::math::sat_add_u64(self.doom_pool, self.life_pool as int),
    {
        self.doom_pool.saturating_add(self.life_pool)
    }

    /// Implied odds of the DOOM side in basis points of the total pool;
    /// an empty event reads as even odds.
    pub fn doom_odds(&self) -> (r: u64)
        ensures
            r == odds_of(self.doom_pool, self.life_pool),
    {
        let total = self.total_pool();
        if total == 0 {
            return 5000;
        }
        proof {
            lemma_odds_bounded(self.doom_pool, total);
        }
        ((self.doom_pool as u128 * 10000) / total as u128) as u64
    }

    /// Implied odds of the LIFE side in basis points of the total pool;
    /// an empty event reads as even odds.
    pub fn life_odds(&self) -> (r: u64)
        ensures
            r == odds_of(self.life_pool, self.doom_pool),
    {
        let total = self.total_pool();
        if total == 0 {
            return 5000;
        }
        proof {
            lemma_odds_bounded(self.life_pool, total);
        }
        ((self.life_pool as u128 * 10000) / total as u128) as u64
    }

    /// Payout and platform fee owed to a winning bet, or `None` when the
    /// bet did not win, nobody bet on the winning side, or a value cannot
    /// be represented. Pure: no state is read beyond this record.
    pub fn calculate_payout(&self, bet_amount: u64, bet_outcome: Outcome, fee_basis_points: u16) -> (r: Option<(u64, u64)>)
        requires
            fee_basis_points <= BPS_DENOM,
        ensures
            r == payout_of(*self, bet_amount, bet_outcome, fee_basis_points),
    {
        if self.outcome != Some(bet_outcome) {
            return None;
        }
        let winning_pool: u64 = match bet_outcome {
            Outcome::Doom => self.doom_pool,
            Outcome::Life => self.life_pool,
        };
        let losing_pool: u64 = match bet_outcome {
            Outcome::Doom => self.life_pool,
            Outcome::Life => self.doom_pool,
        };
        if winning_pool == 0 {
            return None;
        }

        proof {
            assert(bet_amount as int * losing_pool as int
                <= 0xffff_ffff_ffff_ffff * 0xffff_ffff_ffff_ffff) by (nonlinear_arith)
                requires
                    bet_amount <= 0xffff_ffff_ffff_ffffu64,
                    losing_pool <= 0xffff_ffff_ffff_ffffu64,
            ;
        }
        let share: u128 = (bet_amount as u128) * (losing_pool as u128) / (winning_pool as u128);
        let fee: u128 = match share.checked_mul(fee_basis_points as u128) {
            Some(scaled) => scaled / (BPS_DENOM as u128),
            None => { return None; },
        };
        if fee > u64::MAX as u128 {
            return None;
        }
        proof {
            lemma_fee_le_amount(share as int, fee_basis_points as int);
        }
        let net_winnings: u128 = share - fee;
        let total_payout: u128 = match (bet_amount as u128).checked_add(net_winnings) {
            Some(v) => v,
            None => { return None; },
        };
        if total_payout > u64::MAX as u128 {
            return None;
        }
        Some((total_payout as u64, fee as u64))
    }
}

/// Odds of a side in basis points: its pool over the saturating total,
/// or even odds when nothing is wagered.
pub open spec fn odds_of(side_pool: u64, other_pool: u64) -> int {
    let total = crate::math::sat_add_u64(side_pool, other_pool as int);
    if total == 0 {
        5000
    } else {
        side_pool as int * 10000 / total as int
    }
}

/// Odds never exceed 10000 basis points.
proof fn lemma_odds_bounded(side_pool: u64, total: u64)
    requires
        total > 0,
        side_pool <= total,
    ensures
        0 <= side_pool as int * 10000 / total as int <= 10000,
{
    assert(0 <= side_pool as int * 10000 / total as int <= 10000) by (nonlinear_arith)
        requires
            0 <= side_pool <= total,
            total > 0,
    ;
}

/// The result `calculate_payout` owes: `None` exactly when the bet did not
/// win, the winning pool is empty, or the fee or payout cannot be
/// represented; otherwise the pari-mutuel payout and fee.
pub open spec fn payout_of(event: PredictionEvent, bet_amount: u64, bet_outcome: Outcome, fee_bps: u16) -> Option<(u64, u64)> {
    let winning_pool = if bet_outcome == Outcome::Doom {
        event.doom_pool
    } else {
        event.life_pool
    };
    let losing_pool = if bet_outcome == Outcome::Doom {
        event.life_pool
    } else {
        event.doom_pool
    };
    let share = winning_share(bet_amount as int, losing_pool as int, winning_pool as int);
    let fee = share_fee(share, fee_bps as int);
    let payout = net_payout(bet_amount as int, losing_pool as int, winning_pool as int, fee_bps as int);
    if event.outcome != Some(bet_outcome) {
        None
    } else if winning_pool == 0 {
        None
    } else if share * fee_bps > u128::MAX || fee > u64::MAX || payout > u64::MAX {
        None
    } else {
        Some((payout as u64, fee as u64))
    }
}

/// The error `create_event` reports, in check order; `None` means the
/// event is owed.
pub open spec fn create_event_err(config: PlatformConfig, title: Seq<u8>, description: Seq<u8>, deadline: i64, resolution_deadline: i64, now: i64) -> Option<PredictionError> {
    if config.paused {
        Some(PredictionError::PlatformPaused)
    } else if title.len() == 0 || title.len() > MAX_TITLE_LEN {
        Some(PredictionError::InvalidTitle)
    } else if description.len() == 0 || description.len() > MAX_DESCRIPTION_LEN {
        Some(PredictionError::InvalidDescription)
    } else if deadline <= now {
        Some(PredictionError::InvalidDeadline)
    } else if resolution_deadline <= deadline {
        Some(PredictionError::InvalidResolutionDeadline)
    } else {
        None
    }
}

/// Creates a new event: validated texts and deadlines, empty pools, status
/// Active, outcome unset. Counts the creation in the creator's statistics;
/// the substrate assigns vault addresses afterwards. The betting deadline
/// must lie strictly in the future and the resolution deadline strictly
/// after it.
pub fn create_event(config: &PlatformConfig, stats: &mut UserStats, creator: u64, event_id: u64, title: Vec<u8>, description: Vec<u8>, deadline: i64, resolution_deadline: i64, now: i64) -> (r: Result<PredictionEvent, PredictionError>)
    ensures
        match r {
            Ok(event) => {
                &&& create_event_err(*config, title@, description@, deadline, resolution_deadline, now) is None
                &&& event.wf()
                &&& event.event_id == event_id
                &&& event.creator == creator
                &&& event.title@ == title@
                &&& event.description@ == description@
                &&& event.deadline == deadline
                &&& event.resolution_deadline == resolution_deadline
                &&& event.status == EventStatus::Active
                &&& event.outcome is None
                &&& event.doom_pool == 0
                &&& event.life_pool == 0
                &&& event.total_bettors == 0
                &&& event.created_at == now
                &&& event.resolved_at is None
                &&& *final(stats) == (UserStats {
                    events_created: crate::stats::clamp_add_u64(old(stats).events_created, 1) as u64,
                    ..crate::stats::stats_claimed_by(*old(stats), creator)
                })
            },
            Err(e) => {
                &&& create_event_err(*config, title@, description@, deadline, resolution_deadline, now) == Some(e)
                &&& *final(stats) == *old(stats)
            },
        },
{
    if config.paused {
        return Err(PredictionError::PlatformPaused);
    }
    if title.len() == 0 || title.len() > MAX_TITLE_LEN {
        return Err(PredictionError::InvalidTitle);
    }
    if description.len() == 0 || description.len() > MAX_DESCRIPTION_LEN {
        return Err(PredictionError::InvalidDescription);
    }
    if deadline <= now {
        return Err(PredictionError::InvalidDeadline);
    }
    if resolution_deadline <= deadline {
        return Err(PredictionError::InvalidResolutionDeadline);
    }

    if stats.user == 0 {
        stats.user = creator;
    }
    stats.events_created = stats.events_created.saturating_add(1);

    Ok(PredictionEvent {
        event_id,
        creator,
        title,
        description,
        deadline,
        resolution_deadline,
        status: EventStatus::Active,
        outcome: None,
        doom_pool: 0,
        life_pool: 0,
        total_bettors: 0,
        created_at: now,
        resolved_at: None,
        doom_vault: 0,
        life_vault: 0,
        bump: 0,
        doom_vault_bump: 0,
        life_vault_bump: 0,
    })
}

/// The error `resolve_event` reports, in check order; `None` means the
/// resolution is owed.
pub open spec fn resolve_event_err(event: PredictionEvent, config: PlatformConfig, caller: u64, now: i64) -> Option<PredictionError> {
    if caller != config.oracle {
        Some(PredictionError::UnauthorizedOracle)
    } else if event.status != EventStatus::Active {
        Some(PredictionError::EventAlreadyResolved)
    } else if now < event.deadline {
        Some(PredictionError::EventNotResolved)
    } else if now > event.resolution_deadline {
        Some(PredictionError::ResolutionDeadlinePassed)
    } else {
        None
    }
}

/// Resolves an active event with its final outcome. Only the configured
/// oracle may resolve, only once betting has closed, and only inside the
/// resolution window; an oracle that misses the window leaves the event
/// stuck Active, to be unwound by cancellation. Bumps the platform's event
/// counter.
pub fn resolve_event(event: &mut PredictionEvent, config: &mut PlatformConfig, caller: u64, outcome: Outcome, now: i64) -> (r: Result<(), PredictionError>)
    requires
        old(event).wf(),
    ensures
        final(event).wf(),
        match r {
            Ok(()) => {
                &&& resolve_event_err(*old(event), *old(config), caller, now) is None
                &&& *final(event) == (PredictionEvent {
                    status: EventStatus::Resolved,
                    outcome: Some(outcome),
                    resolved_at: Some(now),
                    ..*old(event)
                })
                &&& *final(config) == (PlatformConfig {
                    total_events: crate::stats::clamp_add_u64(old(config).total_events, 1) as u64,
                    ..*old(config)
                })
            },
            Err(e) => {
                &&& resolve_event_err(*old(event), *old(config), caller, now) == Some(e)
                &&& *final(event) == *old(event)
                &&& *final(config) == *old(config)
            },
        },
{
    if caller != config.oracle {
        return Err(PredictionError::UnauthorizedOracle);
    }
    if event.status != EventStatus::Active {
        return Err(PredictionError::EventAlreadyResolved);
    }
    if now < event.deadline {
        return Err(PredictionError::EventNotResolved);
    }
    if now > event.resolution_deadline {
        return Err(PredictionError::ResolutionDeadlinePassed);
    }

    event.status = EventStatus::Resolved;
    event.outcome = Some(outcome);
    event.resolved_at = Some(now);
    config.total_events = config.total_events.saturating_add(1);
    Ok(())
}

/// The error `cancel_event` reports, in check order; `None` means the
/// cancellation is owed.
pub open spec fn cancel_event_err(event: PredictionEvent, config: PlatformConfig, caller: u64) -> Option<PredictionError> {
    if caller != config.authority {
        Some(PredictionError::Unauthorized)
    } else if event.status != EventStatus::Active {
        Some(PredictionError::EventAlreadyResolved)
    } else {
        None
    }
}

/// Cancels an active event: an admin override with no deadline check.
/// Every bet on it becomes refundable.
pub fn cancel_event(event: &mut PredictionEvent, config: &PlatformConfig, caller: u64) -> (r: Result<(), PredictionError>)
    requires
        old(event).wf(),
    ensures
        final(event).wf(),
        match r {
            Ok(()) => {
                &&& cancel_event_err(*old(event), *config, caller) is None
                &&& *final(event) == (PredictionEvent {
                    status: EventStatus::Cancelled,
                    ..*old(event)
                })
            },
            Err(e) => {
                &&& cancel_event_err(*old(event), *config, caller) == Some(e)
                &&& *final(event) == *old(event)
            },
        },
{
    if caller != config.authority {
        return Err(PredictionError::Unauthorized);
    }
    if event.status != EventStatus::Active {
        return Err(PredictionError::EventAlreadyResolved);
    }
    event.status = EventStatus::Cancelled;
    Ok(())
}

/// Terminal states are final: against an event that is no longer Active,
/// resolution, cancellation, and betting all report an error, whatever the
/// caller, outcome, amount, or time; and since every transition leaves its
/// entities untouched on error, no operation ever moves a Resolved or
/// Cancelled event to another status.
pub proof fn lemma_terminal_status_is_final(event: PredictionEvent, config: PlatformConfig, caller: u64, outcome: Outcome, now: i64, amount: u64)
    requires
        event.status != EventStatus::Active,
    ensures
        resolve_event_err(event, config, caller, now) is Some,
        cancel_event_err(event, config, caller) is Some,
        crate::market::place_bet_err(event, config, outcome, amount, now) is Some,
{
}

} // verus!
