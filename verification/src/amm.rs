//! The liquidity-pool engine: a constant-product market maker for the
//! DOOM/LIFE token pair. Every operation validates, computes with 128-bit
//! intermediates, and only then commits the new pool state; on any error the
//! pool is left exactly as it was. Token custody (the actual transfers,
//! LP mint and burn) is the ledger substrate's job: each operation returns
//! the amounts the substrate must move.

use vstd::prelude::*;
use vstd::arithmetic::div_mod::lemma_fundamental_div_mod;
use vstd::arithmetic::div_mod::lemma_div_multiples_vanish;
use vstd::arithmetic::div_mod::lemma_mod_bound;
use vstd::arithmetic::div_mod::lemma_multiply_divide_lt;
use vstd::arithmetic::mul::lemma_mul_strict_inequality;

use crate::errors::AmmError;
use crate::math::BPS_DENOM;
use crate::math::sat_add_u64;
use crate::math::isqrt_u128;
use crate::math::lemma_div_le_multiple;
use crate::math::lemma_sqrt_floor_bounds;
use crate::math::mul_div_u64;
use crate::math::sqrt_floor;

verus! {

/// Swap fee in basis points (30 = 0.30%), fixed for this engine.
pub const SWAP_FEE_BPS: u64 = 30;

/// LP amount the first deposit must strictly exceed; keeps a dust pool from
/// ever dividing by zero.
pub const MINIMUM_LIQUIDITY: u64 = 1000;

/// State of the DOOM/LIFE constant-product pool. Identities (mints,
/// authority) are the deterministic account keys the substrate derives;
/// here they are opaque numeric ids.
#[derive(Clone, Copy, Debug)]
pub struct LiquidityPool {
    pub doom_mint: u64,
    pub life_mint: u64,
    pub doom_reserve: u64,
    pub life_reserve: u64,
    pub lp_mint: u64,
    pub lp_supply: u64,
    pub total_fees_doom: u64,
    pub total_fees_life: u64,
    pub authority: u64,
    pub bump: u8,
}

impl LiquidityPool {
    /// The pool's liquidity is backed: a positive LP supply implies both
    /// reserves are positive, and with no supply outstanding nothing is in
    /// custody.
    pub open spec fn wf(self) -> bool {
        &&& self.lp_supply > 0 ==> self.doom_reserve > 0 && self.life_reserve > 0
        &&& self.lp_supply == 0 ==> self.doom_reserve == 0 && self.life_reserve == 0
    }
}

/// Creates the pool with zero reserves and zero LP supply.
pub fn initialize_pool(doom_mint: u64, life_mint: u64, lp_mint: u64, authority: u64, bump: u8) -> (pool: LiquidityPool)
    ensures
        pool == (LiquidityPool {
            doom_mint,
            life_mint,
            doom_reserve: 0,
            life_reserve: 0,
            lp_mint,
            lp_supply: 0,
            total_fees_doom: 0,
            total_fees_life: 0,
            authority,
            bump,
        }),
        pool.wf(),
{
    LiquidityPool {
        doom_mint,
        life_mint,
        doom_reserve: 0,
        life_reserve: 0,
        lp_mint,
        lp_supply: 0,
        total_fees_doom: 0,
        total_fees_life: 0,
        authority,
        bump,
    }
}

/// LP tokens minted for a deposit of (`a`, `b`): the geometric mean on the
/// first deposit, otherwise the more constraining side's proportional share.
pub open spec fn minted_lp(pool: LiquidityPool, a: u64, b: u64) -> int {
    if pool.lp_supply == 0 {
        sqrt_floor((a * b) as nat) as int
    } else {
        vstd::math::min(
            a as int * pool.lp_supply as int / pool.doom_reserve as int,
            b as int * pool.lp_supply as int / pool.life_reserve as int,
        )
    }
}

/// The error `add_liquidity` reports, in check order; `None` means success
/// is owed.
pub open spec fn add_liquidity_err(pool: LiquidityPool, a: u64, b: u64, min_lp: u64) -> Option<AmmError> {
    let m = minted_lp(pool, a, b);
    if a == 0 || b == 0 {
        Some(AmmError::InvalidAmount)
    } else if pool.lp_supply == 0 && m <= MINIMUM_LIQUIDITY {
        Some(AmmError::InsufficientInitialLiquidity)
    } else if m > u64::MAX {
        Some(AmmError::Overflow)
    } else if m < min_lp {
        Some(AmmError::SlippageExceeded)
    } else if pool.doom_reserve + a > u64::MAX || pool.life_reserve + b > u64::MAX
        || pool.lp_supply + m > u64::MAX {
        Some(AmmError::Overflow)
    } else {
        None
    }
}

/// Pool state after a successful deposit of (`a`, `b`).
pub open spec fn pool_after_add(pool: LiquidityPool, a: u64, b: u64) -> LiquidityPool {
    LiquidityPool {
        doom_reserve: (pool.doom_reserve + a) as u64,
        life_reserve: (pool.life_reserve + b) as u64,
        lp_supply: (pool.lp_supply + minted_lp(pool, a, b)) as u64,
        ..pool
    }
}

/// Adds liquidity: both amounts are transferred in full into pool custody and
/// the computed LP amount is minted to the depositor. The first deposit sets
/// the price ratio and must strictly exceed `MINIMUM_LIQUIDITY`; later
/// deposits mint the minimum of the two proportional shares, so the excess
/// side is accepted without a refund.
pub fn add_liquidity(pool: &mut LiquidityPool, doom_amount: u64, life_amount: u64, min_lp_tokens: u64) -> (r: Result<u64, AmmError>)
    requires
        old(pool).wf(),
    ensures
        final(pool).wf(),
        match r {
            Ok(m) => {
                &&& add_liquidity_err(*old(pool), doom_amount, life_amount, min_lp_tokens) is None
                &&& m == minted_lp(*old(pool), doom_amount, life_amount)
                &&& *final(pool) == pool_after_add(*old(pool), doom_amount, life_amount)
            },
            Err(e) => {
                &&& add_liquidity_err(*old(pool), doom_amount, life_amount, min_lp_tokens) == Some(e)
                &&& *final(pool) == *old(pool)
            },
        },
        // the product of the reserves never decreases across a deposit
        r is Ok ==> final(pool).doom_reserve * final(pool).life_reserve
            >= old(pool).doom_reserve * old(pool).life_reserve,
{
    if doom_amount == 0 || life_amount == 0 {
        return Err(AmmError::InvalidAmount);
    }

    let minted: u64;
    if pool.lp_supply == 0 {
        assert(doom_amount as int * life_amount as int
            <= 0xffff_ffff_ffff_ffff * 0xffff_ffff_ffff_ffff) by (nonlinear_arith)
            requires
                doom_amount <= 0xffff_ffff_ffff_ffffu64,
                life_amount <= 0xffff_ffff_ffff_ffffu64,
        ;
        let product: u128 = (doom_amount as u128) * (life_amount as u128);
        minted = isqrt_u128(product);
        if minted <= MINIMUM_LIQUIDITY {
            return Err(AmmError::InsufficientInitialLiquidity);
        }
        proof {
            lemma_sqrt_floor_bounds(product as nat);
        }
    } else {
        let doom_ratio = mul_div_u64(doom_amount, pool.lp_supply, pool.doom_reserve);
        let life_ratio = mul_div_u64(life_amount, pool.lp_supply, pool.life_reserve);
        match (doom_ratio, life_ratio) {
            (Some(d), Some(l)) => {
                minted = if d < l { d } else { l };
            },
            (Some(d), None) => {
                minted = d;
            },
            (None, Some(l)) => {
                minted = l;
            },
            (None, None) => {
                return Err(AmmError::Overflow);
            },
        }
    }

    if minted < min_lp_tokens {
        return Err(AmmError::SlippageExceeded);
    }

    let new_doom = match pool.doom_reserve.checked_add(doom_amount) {
        Some(v) => v,
        None => { return Err(AmmError::Overflow); },
    };
    let new_life = match pool.life_reserve.checked_add(life_amount) {
        Some(v) => v,
        None => { return Err(AmmError::Overflow); },
    };
    let new_supply = match pool.lp_supply.checked_add(minted) {
        Some(v) => v,
        None => { return Err(AmmError::Overflow); },
    };

    proof {
        assert(new_doom as int * new_life as int
            >= pool.doom_reserve as int * pool.life_reserve as int) by (nonlinear_arith)
            requires
                new_doom >= pool.doom_reserve,
                new_life >= pool.life_reserve,
                new_doom >= 0,
                pool.life_reserve >= 0,
        ;
    }

    pool.doom_reserve = new_doom;
    pool.life_reserve = new_life;
    pool.lp_supply = new_supply;
    Ok(minted)
}

/// DOOM tokens paid out for burning `lp` of the supply.
pub open spec fn removed_doom(pool: LiquidityPool, lp: u64) -> int {
    lp as int * pool.doom_reserve as int / pool.lp_supply as int
}

/// LIFE tokens paid out for burning `lp` of the supply.
pub open spec fn removed_life(pool: LiquidityPool, lp: u64) -> int {
    lp as int * pool.life_reserve as int / pool.lp_supply as int
}

/// The error `remove_liquidity` reports, in check order; `None` means
/// success is owed.
pub open spec fn remove_liquidity_err(pool: LiquidityPool, lp: u64, min_doom: u64, min_life: u64) -> Option<AmmError> {
    if lp == 0 {
        Some(AmmError::InvalidAmount)
    } else if pool.lp_supply == 0 {
        Some(AmmError::EmptyPool)
    } else if lp > pool.lp_supply {
        Some(AmmError::Underflow)
    } else if removed_doom(pool, lp) < min_doom || removed_life(pool, lp) < min_life {
        Some(AmmError::SlippageExceeded)
    } else {
        None
    }
}

/// Pool state after a successful burn of `lp` LP tokens.
pub open spec fn pool_after_remove(pool: LiquidityPool, lp: u64) -> LiquidityPool {
    LiquidityPool {
        doom_reserve: (pool.doom_reserve - removed_doom(pool, lp)) as u64,
        life_reserve: (pool.life_reserve - removed_life(pool, lp)) as u64,
        lp_supply: (pool.lp_supply - lp) as u64,
        ..pool
    }
}

/// Each payout is a floor share of its reserve, so it never exceeds the
/// reserve, and it stays strictly below it while LP supply remains.
proof fn lemma_removed_share_bounds(lp: u64, reserve: u64, supply: u64)
    requires
        supply > 0,
        lp <= supply,
    ensures
        0 <= lp as int * reserve as int / supply as int <= reserve,
        lp < supply && reserve > 0 ==> (lp as int * reserve as int / supply as int) < reserve,
{
    let x = lp as int * reserve as int;
    assert(0 <= x <= reserve as int * supply as int) by (nonlinear_arith)
        requires
            x == lp as int * reserve as int,
            0 <= lp <= supply,
            reserve >= 0,
    ;
    lemma_div_le_multiple(x, reserve as int, supply as int);
    assert(x / supply as int >= 0) by (nonlinear_arith)
        requires x >= 0 && supply > 0,
    ;
    if lp < supply && reserve > 0 {
        lemma_mul_strict_inequality(lp as int, supply as int, reserve as int);
        assert(supply as int * reserve as int == reserve as int * supply as int)
            by (nonlinear_arith);
        lemma_multiply_divide_lt(x, supply as int, reserve as int);
    }
}

/// Removes liquidity: burns `lp_amount` LP tokens and pays out the
/// proportional floor share of each reserve. The subtraction of more LP than
/// the supply holds is rejected defensively as `Underflow`.
pub fn remove_liquidity(pool: &mut LiquidityPool, lp_amount: u64, min_doom: u64, min_life: u64) -> (r: Result<(u64, u64), AmmError>)
    requires
        old(pool).wf(),
    ensures
        final(pool).wf(),
        match r {
            Ok(out) => {
                &&& remove_liquidity_err(*old(pool), lp_amount, min_doom, min_life) is None
                &&& out.0 == removed_doom(*old(pool), lp_amount)
                &&& out.1 == removed_life(*old(pool), lp_amount)
                &&& *final(pool) == pool_after_remove(*old(pool), lp_amount)
            },
            Err(e) => {
                &&& remove_liquidity_err(*old(pool), lp_amount, min_doom, min_life) == Some(e)
                &&& *final(pool) == *old(pool)
            },
        },
{
    if lp_amount == 0 {
        return Err(AmmError::InvalidAmount);
    }
    if pool.lp_supply == 0 {
        return Err(AmmError::EmptyPool);
    }
    if lp_amount > pool.lp_supply {
        return Err(AmmError::Underflow);
    }

    proof {
        lemma_removed_share_bounds(lp_amount, pool.doom_reserve, pool.lp_supply);
        lemma_removed_share_bounds(lp_amount, pool.life_reserve, pool.lp_supply);
    }
    let doom_amount = match mul_div_u64(lp_amount, pool.doom_reserve, pool.lp_supply) {
        Some(v) => v,
        None => { return Err(AmmError::Overflow); },
    };
    let life_amount = match mul_div_u64(lp_amount, pool.life_reserve, pool.lp_supply) {
        Some(v) => v,
        None => { return Err(AmmError::Overflow); },
    };

    if doom_amount < min_doom || life_amount < min_life {
        return Err(AmmError::SlippageExceeded);
    }

    proof {
        if lp_amount == pool.lp_supply {
            // burning the whole supply pays out both reserves exactly
            lemma_div_multiples_vanish(pool.doom_reserve as int, pool.lp_supply as int);
            lemma_div_multiples_vanish(pool.life_reserve as int, pool.lp_supply as int);
        }
    }
    pool.doom_reserve = pool.doom_reserve - doom_amount;
    pool.life_reserve = pool.life_reserve - life_amount;
    pool.lp_supply = pool.lp_supply - lp_amount;
    Ok((doom_amount, life_amount))
}

/// Input amount scaled by the fee's complement: `amount_in * 9970`.
pub open spec fn swap_in_after_fee(amount_in: u64) -> int {
    amount_in * (BPS_DENOM - SWAP_FEE_BPS)
}

/// Constant-product output with the fee taken from the input side:
/// `floor(amount_in * 9970 * reserve_out / (reserve_in * 10000 + amount_in * 9970))`.
pub open spec fn swap_output(reserve_in: u64, reserve_out: u64, amount_in: u64) -> int {
    swap_in_after_fee(amount_in) * reserve_out
        / (reserve_in * BPS_DENOM + swap_in_after_fee(amount_in))
}

/// Fee a swap accrues into the incoming side's counter:
/// `floor(amount_in * 30 / 10000)`.
pub open spec fn swap_fee(amount_in: u64) -> int {
    amount_in as int * SWAP_FEE_BPS as int / BPS_DENOM as int
}

/// Reserve of the token flowing into the pool, by swap direction.
pub open spec fn reserve_in(pool: LiquidityPool, doom_to_life: bool) -> u64 {
    if doom_to_life {
        pool.doom_reserve
    } else {
        pool.life_reserve
    }
}

/// Reserve of the token flowing out of the pool, by swap direction.
pub open spec fn reserve_out(pool: LiquidityPool, doom_to_life: bool) -> u64 {
    if doom_to_life {
        pool.life_reserve
    } else {
        pool.doom_reserve
    }
}

/// The error `swap` reports, in check order; `None` means success is owed.
pub open spec fn swap_err(pool: LiquidityPool, amount_in: u64, min_amount_out: u64, doom_to_life: bool) -> Option<AmmError> {
    let rin = reserve_in(pool, doom_to_life);
    let rout = reserve_out(pool, doom_to_life);
    if amount_in == 0 {
        Some(AmmError::InvalidAmount)
    } else if pool.doom_reserve == 0 || pool.life_reserve == 0 {
        Some(AmmError::EmptyPool)
    } else if swap_in_after_fee(amount_in) * rout > u128::MAX || rin + amount_in > u64::MAX {
        Some(AmmError::Overflow)
    } else if swap_output(rin, rout, amount_in) < min_amount_out {
        Some(AmmError::SlippageExceeded)
    } else if swap_output(rin, rout, amount_in) >= rout {
        Some(AmmError::InsufficientLiquidity)
    } else {
        None
    }
}

/// Pool state after a successful swap.
pub open spec fn pool_after_swap(pool: LiquidityPool, amount_in: u64, doom_to_life: bool) -> LiquidityPool {
    let rin = reserve_in(pool, doom_to_life);
    let rout = reserve_out(pool, doom_to_life);
    let out = swap_output(rin, rout, amount_in);
    if doom_to_life {
        LiquidityPool {
            doom_reserve: (rin + amount_in) as u64,
            life_reserve: (rout - out) as u64,
            total_fees_doom: sat_add_u64(pool.total_fees_doom, swap_fee(amount_in)),
            ..pool
        }
    } else {
        LiquidityPool {
            life_reserve: (rin + amount_in) as u64,
            doom_reserve: (rout - out) as u64,
            total_fees_life: sat_add_u64(pool.total_fees_life, swap_fee(amount_in)),
            ..pool
        }
    }
}

/// A swap's output is non-negative and strictly below the outgoing reserve,
/// so no swap can drain a reserve to zero.
pub proof fn lemma_swap_output_bounds(rin: u64, rout: u64, ain: u64)
    requires
        rin > 0,
        rout > 0,
        ain > 0,
    ensures
        0 <= swap_output(rin, rout, ain) < rout,
{
    let f = swap_in_after_fee(ain);
    let d = rin as int * BPS_DENOM as int + f;
    let n = f * rout as int;
    assert(f > 0 && d > 0 && n > 0 && n < d * rout as int) by (nonlinear_arith)
        requires
            f == ain as int * 9970,
            d == rin as int * 10000 + f,
            n == f * rout as int,
            ain >= 1,
            rin >= 1,
            rout >= 1,
    ;
    lemma_multiply_divide_lt(n, d, rout as int);
    assert(n / d >= 0) by (nonlinear_arith)
        requires
            n >= 0,
            d > 0,
    ;
}

/// A swap never decreases the product of the reserves: the fee makes the
/// implied constant grow.
pub proof fn lemma_swap_grows_product(rin: u64, rout: u64, ain: u64)
    requires
        rin > 0,
        rout > 0,
        ain > 0,
    ensures
        (rin + ain) * (rout - swap_output(rin, rout, ain)) >= rin * rout,
{
    let f = swap_in_after_fee(ain);
    let d = rin as int * BPS_DENOM as int + f;
    let n = f * rout as int;
    let out = swap_output(rin, rout, ain);
    assert(out == n / d);
    lemma_swap_output_bounds(rin, rout, ain);
    assert(d > 0) by (nonlinear_arith)
        requires
            d == rin as int * 10000 + f,
            f == ain as int * 9970,
            rin >= 1,
            ain >= 1,
    ;
    lemma_fundamental_div_mod(n, d);
    lemma_mod_bound(n, d);
    assert(out * d <= n) by (nonlinear_arith)
        requires
            n == d * out + n % d,
            n % d >= 0,
    ;
    assert(out * (rin as int + ain as int) <= ain as int * rout as int) by (nonlinear_arith)
        requires
            out * d <= n,
            n == f * rout as int,
            d == rin as int * 10000 + f,
            f == ain as int * 9970,
            rin >= 1,
            rout >= 1,
            ain >= 1,
            out >= 0,
    ;
    assert((rin as int + ain as int) * (rout as int - out) >= rin as int * rout as int)
        by (nonlinear_arith)
        requires
            out * (rin as int + ain as int) <= ain as int * rout as int,
            out <= rout,
            rin >= 0,
            ain >= 0,
            rout >= 0,
            out >= 0,
    ;
}

/// Swaps `amount_in` of one token for the other at the constant-product
/// price with a 0.30% fee on the input. All checks precede any state change;
/// the substrate then moves `amount_in` in and the returned amount out.
pub fn swap(pool: &mut LiquidityPool, amount_in: u64, min_amount_out: u64, doom_to_life: bool) -> (r: Result<u64, AmmError>)
    requires
        old(pool).wf(),
    ensures
        final(pool).wf(),
        match r {
            Ok(out) => {
                &&& swap_err(*old(pool), amount_in, min_amount_out, doom_to_life) is None
                &&& out == swap_output(
                    reserve_in(*old(pool), doom_to_life),
                    reserve_out(*old(pool), doom_to_life),
                    amount_in,
                )
                &&& out < reserve_out(*old(pool), doom_to_life)
                &&& *final(pool) == pool_after_swap(*old(pool), amount_in, doom_to_life)
            },
            Err(e) => {
                &&& swap_err(*old(pool), amount_in, min_amount_out, doom_to_life) == Some(e)
                &&& *final(pool) == *old(pool)
            },
        },
        // the product of the reserves never decreases across a swap
        r is Ok ==> final(pool).doom_reserve * final(pool).life_reserve
            >= old(pool).doom_reserve * old(pool).life_reserve,
{
    if amount_in == 0 {
        return Err(AmmError::InvalidAmount);
    }
    if pool.doom_reserve == 0 || pool.life_reserve == 0 {
        return Err(AmmError::EmptyPool);
    }
    let rin: u64 = if doom_to_life { pool.doom_reserve } else { pool.life_reserve };
    let rout: u64 = if doom_to_life { pool.life_reserve } else { pool.doom_reserve };

    proof {
        assert(amount_in as int * 9970 <= 0xffff_ffff_ffff_ffff * 9970) by (nonlinear_arith)
            requires amount_in <= 0xffff_ffff_ffff_ffffu64,
        ;
        assert(rin as int * 10000 <= 0xffff_ffff_ffff_ffff * 10000) by (nonlinear_arith)
            requires rin <= 0xffff_ffff_ffff_ffffu64,
        ;
    }
    let f: u128 = (amount_in as u128) * ((BPS_DENOM - SWAP_FEE_BPS) as u128);
    let numerator: u128 = match f.checked_mul(rout as u128) {
        Some(v) => v,
        None => { return Err(AmmError::Overflow); },
    };
    let new_rin: u64 = match rin.checked_add(amount_in) {
        Some(v) => v,
        None => { return Err(AmmError::Overflow); },
    };
    let denominator: u128 = (rin as u128) * (BPS_DENOM as u128) + f;

    proof {
        lemma_swap_output_bounds(rin, rout, amount_in);
    }
    let out128: u128 = numerator / denominator;
    let amount_out: u64 = out128 as u64;

    if amount_out < min_amount_out {
        return Err(AmmError::SlippageExceeded);
    }
    if amount_out >= rout {
        return Err(AmmError::InsufficientLiquidity);
    }

    proof {
        assert(amount_in as int * 30 / 10000 <= amount_in as int) by (nonlinear_arith);
        assert(amount_in as int * 30 <= 0xffff_ffff_ffff_ffff * 30) by (nonlinear_arith)
            requires amount_in <= 0xffff_ffff_ffff_ffffu64,
        ;
    }
    let fee: u64 = ((amount_in as u128) * (SWAP_FEE_BPS as u128) / (BPS_DENOM as u128)) as u64;

    proof {
        lemma_swap_grows_product(rin, rout, amount_in);
        assert((rout as int - amount_out) * (rin as int + amount_in)
            == (rin as int + amount_in) * (rout as int - amount_out)) by (nonlinear_arith);
    }

    if doom_to_life {
        pool.doom_reserve = new_rin;
        pool.life_reserve = rout - amount_out;
        pool.total_fees_doom = pool.total_fees_doom.saturating_add(fee);
    } else {
        pool.life_reserve = new_rin;
        pool.doom_reserve = rout - amount_out;
        pool.total_fees_life = pool.total_fees_life.saturating_add(fee);
    }
    Ok(amount_out)
}

/// Quoted output for a swap: zero when either reserve is empty, otherwise
/// exactly the amount `swap` would apply.
pub open spec fn quote_output(pool: LiquidityPool, amount_in: u64, doom_to_life: bool) -> int {
    let rin = reserve_in(pool, doom_to_life);
    let rout = reserve_out(pool, doom_to_life);
    if rin == 0 || rout == 0 {
        0
    } else {
        swap_output(rin, rout, amount_in)
    }
}

/// Pure price read: no state change and no error; an empty pool quotes zero.
/// The one machine limit is that the 128-bit numerator must be representable.
pub fn get_quote(pool: &LiquidityPool, amount_in: u64, doom_to_life: bool) -> (out: u64)
    requires
        swap_in_after_fee(amount_in) * reserve_out(*pool, doom_to_life) <= u128::MAX,
    ensures
        out == quote_output(*pool, amount_in, doom_to_life),
{
    let rin: u64 = if doom_to_life { pool.doom_reserve } else { pool.life_reserve };
    let rout: u64 = if doom_to_life { pool.life_reserve } else { pool.doom_reserve };
    if rin == 0 || rout == 0 {
        return 0;
    }
    if amount_in == 0 {
        proof {
            let d = rin as int * BPS_DENOM as int + swap_in_after_fee(0);
            assert(swap_in_after_fee(0) == 0);
            assert(d == rin as int * 10000);
            assert(d > 0) by (nonlinear_arith)
                requires d == rin as int * 10000, rin >= 1,
            ;
            lemma_div_multiples_vanish(0, d);
            assert(swap_output(rin, rout, 0) == 0);
        }
        return 0;
    }
    proof {
        assert(amount_in as int * 9970 <= 0xffff_ffff_ffff_ffff * 9970) by (nonlinear_arith)
            requires amount_in <= 0xffff_ffff_ffff_ffffu64,
        ;
        assert(rin as int * 10000 <= 0xffff_ffff_ffff_ffff * 10000) by (nonlinear_arith)
            requires rin <= 0xffff_ffff_ffff_ffffu64,
        ;
    }
    let f: u128 = (amount_in as u128) * ((BPS_DENOM - SWAP_FEE_BPS) as u128);
    let numerator: u128 = f * (rout as u128);
    let denominator: u128 = (rin as u128) * (BPS_DENOM as u128) + f;
    proof {
        lemma_swap_output_bounds(rin, rout, amount_in);
    }
    (numerator / denominator) as u64
}

/// The quote taken before a swap equals the output the swap then applies on
/// identical reserves, and that output is strictly below the outgoing
/// reserve.
pub proof fn lemma_quote_matches_swap(pool: LiquidityPool, amount_in: u64, min_amount_out: u64, doom_to_life: bool)
    requires
        swap_err(pool, amount_in, min_amount_out, doom_to_life) is None,
    ensures
        quote_output(pool, amount_in, doom_to_life) == swap_output(
            reserve_in(pool, doom_to_life),
            reserve_out(pool, doom_to_life),
            amount_in,
        ),
        swap_output(reserve_in(pool, doom_to_life), reserve_out(pool, doom_to_life), amount_in)
            < reserve_out(pool, doom_to_life),
{
    lemma_swap_output_bounds(
        reserve_in(pool, doom_to_life),
        reserve_out(pool, doom_to_life),
        amount_in,
    );
}

/// Round trip: a deposit followed immediately by removing the LP it minted
/// pays back at most the deposited amounts; floor division and fee accrual
/// only ever keep value inside the pool.
pub proof fn lemma_add_remove_round_trip(pool: LiquidityPool, a: u64, b: u64)
    requires
        pool.wf(),
        add_liquidity_err(pool, a, b, 0) is None,
    ensures
        ({
            let pool1 = pool_after_add(pool, a, b);
            let m = (minted_lp(pool, a, b)) as u64;
            removed_doom(pool1, m) <= a && removed_life(pool1, m) <= b
        }),
{
    let pool1 = pool_after_add(pool, a, b);
    let m = minted_lp(pool, a, b);
    let s = pool.lp_supply as int;
    let ra = pool.doom_reserve as int;
    let rb = pool.life_reserve as int;
    if pool.lp_supply == 0 {
        // the whole supply is the fresh mint, so the payout divides exactly
        assert(m > MINIMUM_LIQUIDITY);
        assert(0 <= m <= u64::MAX);
        assert(pool1.lp_supply == m);
        assert(pool1.doom_reserve == a);
        assert(pool1.life_reserve == b);
        lemma_div_multiples_vanish(a as int, m);
        lemma_div_multiples_vanish(b as int, m);
        assert(removed_doom(pool1, m as u64) == m * a as int / m);
        assert(removed_life(pool1, m as u64) == m * b as int / m);
    } else {
        lemma_round_trip_side(a, pool.lp_supply, pool.doom_reserve, m);
        lemma_round_trip_side(b, pool.lp_supply, pool.life_reserve, m);
    }
}

/// One side of the round trip: when `m` is at most the proportional share
/// `a * s / reserve`, burning `m` out of `s + m` pays back at most `a`.
proof fn lemma_round_trip_side(a: u64, s: u64, reserve: u64, m: int)
    requires
        s > 0,
        reserve > 0,
        0 <= m <= a as int * s as int / reserve as int,
    ensures
        m * (reserve + a) / (s + m) <= a,
{
    let q = a as int * s as int / reserve as int;
    lemma_fundamental_div_mod(a as int * s as int, reserve as int);
    lemma_mod_bound(a as int * s as int, reserve as int);
    assert(m * reserve as int <= a as int * s as int) by (nonlinear_arith)
        requires
            m <= q,
            a as int * s as int == reserve as int * q + (a as int * s as int) % (reserve as int),
            (a as int * s as int) % (reserve as int) >= 0,
            reserve >= 1,
    ;
    assert(m * (reserve as int + a as int) <= a as int * (s as int + m)) by (nonlinear_arith)
        requires
            m * reserve as int <= a as int * s as int,
            m >= 0,
            a >= 0,
    ;
    lemma_div_le_multiple(m * (reserve as int + a as int), a as int, s as int + m);
}

} // verus!
