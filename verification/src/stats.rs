//! Running per-user statistics: bet/win/loss counts, wagered and won
//! totals, signed net profit, and win/loss streaks. Counters saturate
//! instead of failing, so recording never aborts a user's operation.

use vstd::prelude::*;

verus! {

/// Aggregated statistics for one user, created lazily on the first bet or
/// event creation.
#[derive(Clone, Copy, Debug)]
pub struct UserStats {
    pub user: u64,
    pub total_bets: u64,
    pub wins: u64,
    pub losses: u64,
    pub total_wagered: u64,
    pub total_won: u64,
    pub total_lost: u64,
    pub net_profit: i64,
    pub events_created: u64,
    pub first_bet_at: Option<i64>,
    pub last_bet_at: Option<i64>,
    pub current_streak: i64,
    pub best_streak: u64,
    pub worst_streak: u64,
    pub bump: u8,
}

/// `x` clamped into the signed 64-bit range.
pub open spec fn clamp_i64(x: int) -> int {
    if x > i64::MAX {
        i64::MAX as int
    } else if x < i64::MIN {
        i64::MIN as int
    } else {
        x
    }
}

/// `x` clamped into the unsigned 64-bit range from above.
pub open spec fn clamp_add_u64(a: u64, b: u64) -> int {
    if a + b > u64::MAX {
        u64::MAX as int
    } else {
        a + b
    }
}

impl Default for UserStats {
    /// The empty record: everything zero, no bets seen yet.
    fn default() -> (r: Self)
        ensures
            r == (UserStats {
                user: 0,
                total_bets: 0,
                wins: 0,
                losses: 0,
                total_wagered: 0,
                total_won: 0,
                total_lost: 0,
                net_profit: 0,
                events_created: 0,
                first_bet_at: None,
                last_bet_at: None,
                current_streak: 0,
                best_streak: 0,
                worst_streak: 0,
                bump: 0,
            }),
    {
        UserStats {
            user: 0,
            total_bets: 0,
            wins: 0,
            losses: 0,
            total_wagered: 0,
            total_won: 0,
            total_lost: 0,
            net_profit: 0,
            events_created: 0,
            first_bet_at: None,
            last_bet_at: None,
            current_streak: 0,
            best_streak: 0,
            worst_streak: 0,
            bump: 0,
        }
    }
}

/// The statistics record with its owner stamped on first use.
pub open spec fn stats_claimed_by(stats: UserStats, user: u64) -> UserStats {
    if stats.user == 0 {
        UserStats { user, ..stats }
    } else {
        stats
    }
}

/// Statistics after recording a bet of `amount` at `timestamp`.
pub open spec fn stats_after_bet(s: UserStats, amount: u64, timestamp: i64) -> UserStats {
    UserStats {
        total_bets: clamp_add_u64(s.total_bets, 1) as u64,
        total_wagered: clamp_add_u64(s.total_wagered, amount) as u64,
        first_bet_at: match s.first_bet_at {
            Some(t) => Some(t),
            None => Some(timestamp),
        },
        last_bet_at: Some(timestamp),
        ..s
    }
}

/// Statistics after recording a win: a bet of `wagered` paid out
/// `won` in total. The streak extends while non-negative and restarts at
/// one after losses.
pub open spec fn stats_after_win(s: UserStats, wagered: u64, won: u64) -> UserStats {
    let streak = if s.current_streak >= 0 {
        clamp_i64(s.current_streak + 1)
    } else {
        1int
    };
    UserStats {
        wins: clamp_add_u64(s.wins, 1) as u64,
        total_won: clamp_add_u64(s.total_won, won) as u64,
        net_profit: clamp_i64(s.net_profit + won - wagered) as i64,
        current_streak: streak as i64,
        best_streak: if streak > s.best_streak {
            streak as u64
        } else {
            s.best_streak
        },
        ..s
    }
}

/// Statistics after recording a loss of `wagered`. The streak extends
/// while non-positive and restarts at minus one after wins.
pub open spec fn stats_after_loss(s: UserStats, wagered: u64) -> UserStats {
    let streak = if s.current_streak <= 0 {
        clamp_i64(s.current_streak - 1)
    } else {
        -1int
    };
    UserStats {
        losses: clamp_add_u64(s.losses, 1) as u64,
        total_lost: clamp_add_u64(s.total_lost, wagered) as u64,
        net_profit: clamp_i64(s.net_profit - wagered) as i64,
        current_streak: streak as i64,
        worst_streak: if -streak > s.worst_streak {
            (-streak) as u64
        } else {
            s.worst_streak
        },
        ..s
    }
}

/// Signed saturating addition of an unsigned delta.
fn sat_add_i64_u64(x: i64, d: u64) -> (r: i64)
    ensures
        r == clamp_i64(x + d),
{
    let v: i128 = (x as i128) + (d as i128);
    if v > i64::MAX as i128 {
        i64::MAX
    } else {
        v as i64
    }
}

/// Signed saturating subtraction of an unsigned delta.
fn sat_sub_i64_u64(x: i64, d: u64) -> (r: i64)
    ensures
        r == clamp_i64(x - d),
{
    let v: i128 = (x as i128) - (d as i128);
    if v < i64::MIN as i128 {
        i64::MIN
    } else {
        v as i64
    }
}

impl UserStats {
    /// Share of bets won, in basis points of all bets (0 when none were
    /// placed); saturates at the unsigned 64-bit ceiling.
    pub fn win_rate(&self) -> (r: u64)
        ensures
            self.total_bets == 0 ==> r == 0,
            self.total_bets > 0 ==> r == vstd::math::min(
                self.wins as int * 10000 / self.total_bets as int,
                u64::MAX as int,
            ),
    {
        if self.total_bets == 0 {
            return 0;
        }
        let q: u128 = (self.wins as u128) * 10000 / (self.total_bets as u128);
        if q > u64::MAX as u128 {
            u64::MAX
        } else {
            q as u64
        }
    }

    /// Counts a placed bet and its wager; stamps the first bet once and the
    /// latest bet always.
    pub fn record_bet(&mut self, amount: u64, timestamp: i64)
        ensures
            *final(self) == stats_after_bet(*old(self), amount, timestamp),
    {
        self.total_bets = self.total_bets.saturating_add(1);
        self.total_wagered = self.total_wagered.saturating_add(amount);
        if self.first_bet_at.is_none() {
            self.first_bet_at = Some(timestamp);
        }
        self.last_bet_at = Some(timestamp);
    }

    /// Counts a win that paid `amount_won` in total on a bet of
    /// `amount_wagered`; extends or restarts the positive streak.
    pub fn record_win(&mut self, amount_wagered: u64, amount_won: u64)
        ensures
            *final(self) == stats_after_win(*old(self), amount_wagered, amount_won),
    {
        self.wins = self.wins.saturating_add(1);
        self.total_won = self.total_won.saturating_add(amount_won);

        if amount_won >= amount_wagered {
            self.net_profit = sat_add_i64_u64(self.net_profit, amount_won - amount_wagered);
        } else {
            self.net_profit = sat_sub_i64_u64(self.net_profit, amount_wagered - amount_won);
        }

        if self.current_streak >= 0 {
            self.current_streak = sat_add_i64_u64(self.current_streak, 1);
        } else {
            self.current_streak = 1;
        }
        if self.current_streak as u64 > self.best_streak {
            self.best_streak = self.current_streak as u64;
        }
    }

    /// Counts a loss of `amount_wagered`; extends or restarts the negative
    /// streak and tracks its worst magnitude.
    pub fn record_loss(&mut self, amount_wagered: u64)
        ensures
            *final(self) == stats_after_loss(*old(self), amount_wagered),
    {
        self.losses = self.losses.saturating_add(1);
        self.total_lost = self.total_lost.saturating_add(amount_wagered);
        self.net_profit = sat_sub_i64_u64(self.net_profit, amount_wagered);

        if self.current_streak <= 0 {
            self.current_streak = sat_sub_i64_u64(self.current_streak, 1);
        } else {
            self.current_streak = -1;
        }
        let magnitude: u64 = (-(self.current_streak as i128)) as u64;
        if magnitude > self.worst_streak {
            self.worst_streak = magnitude;
        }
    }
}

} // verus!
