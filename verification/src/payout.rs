//! The pari-mutuel payout calculator: a winning bettor gets the stake back
//! in full plus a proportional, fee-adjusted cut of the losing pool. The
//! conservation results here bound what all winners together can ever draw
//! out of an event's two pools.

use vstd::prelude::*;
use vstd::arithmetic::div_mod::lemma_div_multiples_vanish;
use vstd::arithmetic::div_mod::lemma_fundamental_div_mod;

use crate::math::BPS_DENOM;
use crate::math::lemma_div_sum_le;
use crate::math::lemma_fee_le_amount;

verus! {

/// A winning bettor's proportional cut of the losing pool:
/// `floor(wager * losing_pool / winning_pool)`.
pub open spec fn winning_share(wager: int, losing_pool: int, winning_pool: int) -> int {
    wager * losing_pool / winning_pool
}

/// Platform fee taken from a share: `floor(share * fee_bps / 10000)`.
pub open spec fn share_fee(share: int, fee_bps: int) -> int {
    share * fee_bps / (BPS_DENOM as int)
}

/// Total payout of a winning bet: the stake back in full plus the
/// fee-adjusted share of the losing pool.
pub open spec fn net_payout(wager: int, losing_pool: int, winning_pool: int, fee_bps: int) -> int {
    wager + winning_share(wager, losing_pool, winning_pool)
        - share_fee(winning_share(wager, losing_pool, winning_pool), fee_bps)
}

/// Sum of a sequence of wagers.
pub open spec fn total_wagered(wagers: Seq<u64>) -> int
    decreases wagers.len(),
{
    if wagers.len() == 0 {
        0
    } else {
        total_wagered(wagers.drop_last()) + wagers.last()
    }
}

/// Sum of the losing-pool shares owed to a sequence of winning wagers.
pub open spec fn total_share(wagers: Seq<u64>, losing_pool: u64, winning_pool: u64) -> int
    decreases wagers.len(),
{
    if wagers.len() == 0 {
        0
    } else {
        total_share(wagers.drop_last(), losing_pool, winning_pool) + winning_share(
            wagers.last() as int,
            losing_pool as int,
            winning_pool as int,
        )
    }
}

/// Sum of the payouts owed to a sequence of winning wagers.
pub open spec fn total_payout(wagers: Seq<u64>, losing_pool: u64, winning_pool: u64, fee_bps: u16) -> int
    decreases wagers.len(),
{
    if wagers.len() == 0 {
        0
    } else {
        total_payout(wagers.drop_last(), losing_pool, winning_pool, fee_bps) + net_payout(
            wagers.last() as int,
            losing_pool as int,
            winning_pool as int,
            fee_bps as int,
        )
    }
}

/// A sum of wagers is never negative.
proof fn lemma_total_wagered_nonneg(wagers: Seq<u64>)
    ensures
        total_wagered(wagers) >= 0,
    decreases wagers.len(),
{
    if wagers.len() > 0 {
        lemma_total_wagered_nonneg(wagers.drop_last());
    }
}

/// The summed shares never exceed the share of the summed wagers: floor
/// division loses value at every bettor, never gains it.
proof fn lemma_share_sum_le(wagers: Seq<u64>, losing_pool: u64, winning_pool: u64)
    requires
        winning_pool > 0,
    ensures
        total_share(wagers, losing_pool, winning_pool) <= total_wagered(wagers)
            * losing_pool as int / winning_pool as int,
    decreases wagers.len(),
{
    let l = losing_pool as int;
    let w = winning_pool as int;
    if wagers.len() == 0 {
        lemma_div_multiples_vanish(0, w);
        assert(0int * l == w * 0) by (nonlinear_arith);
    } else {
        lemma_share_sum_le(wagers.drop_last(), losing_pool, winning_pool);
        lemma_total_wagered_nonneg(wagers.drop_last());
        let s = total_wagered(wagers.drop_last());
        let a = wagers.last() as int;
        assert(s * l >= 0 && a * l >= 0 && s * l + a * l == (s + a) * l) by (nonlinear_arith)
            requires
                s >= 0,
                a >= 0,
                l >= 0,
        ;
        lemma_div_sum_le(s * l, a * l, w);
    }
}

/// Each payout is at most the wager plus the share: the fee is never
/// negative.
proof fn lemma_payout_le_wager_plus_share(wagers: Seq<u64>, losing_pool: u64, winning_pool: u64, fee_bps: u16)
    requires
        winning_pool > 0,
        fee_bps <= BPS_DENOM,
    ensures
        total_payout(wagers, losing_pool, winning_pool, fee_bps) <= total_wagered(wagers)
            + total_share(wagers, losing_pool, winning_pool),
    decreases wagers.len(),
{
    if wagers.len() > 0 {
        lemma_payout_le_wager_plus_share(wagers.drop_last(), losing_pool, winning_pool, fee_bps);
        let a = wagers.last() as int;
        let share = winning_share(a, losing_pool as int, winning_pool as int);
        assert(share >= 0) by (nonlinear_arith)
            requires
                share == a * losing_pool as int / winning_pool as int,
                a >= 0,
                losing_pool >= 0,
                winning_pool > 0,
        ;
        lemma_fee_le_amount(share, fee_bps as int);
    }
}

/// Pari-mutuel conservation: when the winning wagers sum to the winning
/// pool, the payouts they are owed never exceed the two pools combined,
/// whatever the fee rate.
pub proof fn lemma_parimutuel_conservation(wagers: Seq<u64>, losing_pool: u64, winning_pool: u64, fee_bps: u16)
    requires
        winning_pool > 0,
        fee_bps <= BPS_DENOM,
        total_wagered(wagers) == winning_pool,
    ensures
        total_payout(wagers, losing_pool, winning_pool, fee_bps) <= winning_pool + losing_pool,
{
    lemma_payout_le_wager_plus_share(wagers, losing_pool, winning_pool, fee_bps);
    lemma_share_sum_le(wagers, losing_pool, winning_pool);
    lemma_div_multiples_vanish(losing_pool as int, winning_pool as int);
    assert(total_wagered(wagers) * losing_pool as int == winning_pool as int * losing_pool as int);
}

/// Under exact division, the summed shares multiply back to the summed
/// wagers times the losing pool.
proof fn lemma_exact_share_sum(wagers: Seq<u64>, losing_pool: u64, winning_pool: u64)
    requires
        winning_pool > 0,
        forall|i: int|
            0 <= i < wagers.len() ==> #[trigger] (wagers[i] as int * losing_pool as int)
                % (winning_pool as int) == 0,
    ensures
        total_share(wagers, losing_pool, winning_pool) * winning_pool as int == total_wagered(
            wagers,
        ) * losing_pool as int,
    decreases wagers.len(),
{
    let l = losing_pool as int;
    let w = winning_pool as int;
    if wagers.len() == 0 {
        assert(0int * w == 0int * l) by (nonlinear_arith);
    } else {
        assert(forall|i: int|
            0 <= i < wagers.drop_last().len() ==> #[trigger] (wagers.drop_last()[i] as int * l) % w
                == 0);
        lemma_exact_share_sum(wagers.drop_last(), losing_pool, winning_pool);
        let a = wagers.last() as int;
        assert((a * l) % w == 0);
        lemma_fundamental_div_mod(a * l, w);
        let share = winning_share(a, l, w);
        let sprev = total_share(wagers.drop_last(), losing_pool, winning_pool);
        let tprev = total_wagered(wagers.drop_last());
        assert((sprev + share) * w == (tprev + a) * l) by (nonlinear_arith)
            requires
                sprev * w == tprev * l,
                a * l == w * share,
        ;
    }
}

/// With a zero fee rate and every share dividing exactly, the winners'
/// payouts drain the two pools to the last unit.
pub proof fn lemma_parimutuel_exact_when_feeless(wagers: Seq<u64>, losing_pool: u64, winning_pool: u64)
    requires
        winning_pool > 0,
        total_wagered(wagers) == winning_pool,
        forall|i: int|
            0 <= i < wagers.len() ==> #[trigger] (wagers[i] as int * losing_pool as int)
                % (winning_pool as int) == 0,
    ensures
        total_payout(wagers, losing_pool, winning_pool, 0) == winning_pool + losing_pool,
{
    lemma_exact_share_sum(wagers, losing_pool, winning_pool);
    let share_sum = total_share(wagers, losing_pool, winning_pool);
    assert(share_sum == losing_pool) by (nonlinear_arith)
        requires
            share_sum * winning_pool as int == winning_pool as int * losing_pool as int,
            winning_pool > 0,
    ;
    lemma_payout_sum_feeless(wagers, losing_pool, winning_pool);
}

/// With no fee, each payout is exactly the wager plus the share.
proof fn lemma_payout_sum_feeless(wagers: Seq<u64>, losing_pool: u64, winning_pool: u64)
    requires
        winning_pool > 0,
    ensures
        total_payout(wagers, losing_pool, winning_pool, 0) == total_wagered(wagers) + total_share(
            wagers,
            losing_pool,
            winning_pool,
        ),
    decreases wagers.len(),
{
    if wagers.len() > 0 {
        lemma_payout_sum_feeless(wagers.drop_last(), losing_pool, winning_pool);
        let share = winning_share(
            wagers.last() as int,
            losing_pool as int,
            winning_pool as int,
        );
        assert(share * 0 == 0) by (nonlinear_arith);
        lemma_div_multiples_vanish(0, BPS_DENOM as int);
        assert(share_fee(share, 0) == 0);
    }
}

} // verus!
