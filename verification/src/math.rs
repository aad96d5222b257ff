//! Fixed-point math utilities shared by both engines: overflow-checked
//! multiply-then-divide over 128-bit intermediates, an exact integer square
//! root, and the division facts the engine proofs lean on.

use vstd::prelude::*;
use vstd::arithmetic::div_mod::lemma_div_is_ordered;
use vstd::arithmetic::div_mod::lemma_div_multiples_vanish;
use vstd::arithmetic::div_mod::lemma_fundamental_div_mod;

use crate::errors::AmmError;

verus! {

/// Denominator of every basis-point fee rate: 10000 bps = 100%.
pub const BPS_DENOM: u64 = 10000;

/// Floor of the square root of `x`.
pub open spec fn sqrt_floor(x: nat) -> nat
    decreases x,
{
    if x == 0 {
        0
    } else {
        let r = sqrt_floor((x - 1) as nat);
        if (r + 1) * (r + 1) <= x {
            r + 1
        } else {
            r
        }
    }
}

/// `sqrt_floor(x)` is the unique `r` with `r * r <= x < (r + 1) * (r + 1)`.
pub proof fn lemma_sqrt_floor_bounds(x: nat)
    ensures
        sqrt_floor(x) * sqrt_floor(x) <= x,
        x < (sqrt_floor(x) + 1) * (sqrt_floor(x) + 1),
    decreases x,
{
    if x == 0 {
        let s = sqrt_floor(x);
        assert(s == 0);
        assert((s + 1) * (s + 1) == 1) by (nonlinear_arith)
            requires s == 0nat,
        ;
    } else {
        lemma_sqrt_floor_bounds((x - 1) as nat);
        let r = sqrt_floor((x - 1) as nat);
        if (r + 1) * (r + 1) <= x {
            assert(sqrt_floor(x) == r + 1);
            assert(x == (r + 1) * (r + 1));
            assert((r + 2) * (r + 2) > (r + 1) * (r + 1)) by (nonlinear_arith);
        } else {
            assert(sqrt_floor(x) == r);
        }
    }
}

/// Two integers that both bracket `x` as floor square roots are equal.
pub proof fn lemma_sqrt_floor_unique(a: nat, b: nat, x: nat)
    requires
        a * a <= x < (a + 1) * (a + 1),
        b * b <= x < (b + 1) * (b + 1),
    ensures
        a == b,
{
    if a < b {
        assert((a + 1) * (a + 1) <= b * b) by (nonlinear_arith)
            requires a < b,
        ;
    }
    if b < a {
        assert((b + 1) * (b + 1) <= a * a) by (nonlinear_arith)
            requires b < a,
        ;
    }
}

/// Summing floors of divisions never exceeds the floor of the summed division.
pub proof fn lemma_div_sum_le(a: int, b: int, d: int)
    requires
        a >= 0,
        b >= 0,
        d > 0,
    ensures
        a / d + b / d <= (a + b) / d,
{
    lemma_fundamental_div_mod(a, d);
    lemma_fundamental_div_mod(b, d);
    assert(a + b >= d * (a / d + b / d)) by (nonlinear_arith)
        requires
            a == d * (a / d) + a % d,
            b == d * (b / d) + b % d,
            a % d >= 0,
            b % d >= 0,
    ;
    lemma_div_is_ordered(d * (a / d + b / d), a + b, d);
    lemma_div_multiples_vanish(a / d + b / d, d);
}

/// `floor(x / d) <= q` whenever `x <= q * d`.
pub proof fn lemma_div_le_multiple(x: int, q: int, d: int)
    requires
        d > 0,
        0 <= x <= q * d,
    ensures
        x / d <= q,
{
    lemma_div_is_ordered(x, q * d, d);
    assert(q * d == d * q) by (nonlinear_arith);
    lemma_div_multiples_vanish(q, d);
}

/// Saturating addition into a 64-bit counter.
pub open spec fn sat_add_u64(a: u64, b: int) -> u64 {
    if a + b > u64::MAX {
        u64::MAX
    } else {
        (a + b) as u64
    }
}

/// At a rate of at most 10000 bps, a fee never exceeds the amount it is
/// taken from.
pub proof fn lemma_fee_le_amount(amount: int, bps: int)
    requires
        amount >= 0,
        0 <= bps <= 10000,
    ensures
        0 <= amount * bps / 10000 <= amount,
{
    assert(0 <= amount * bps / 10000 <= amount) by (nonlinear_arith)
        requires
            amount >= 0,
            0 <= bps <= 10000,
    ;
}

/// `floor(a * b / d)` with a 128-bit intermediate; `None` when the divisor is
/// zero or the quotient does not fit in 64 bits.
pub fn mul_div_u64(a: u64, b: u64, d: u64) -> (r: Option<u64>)
    ensures
        d == 0 ==> r is None,
        d != 0 && a as int * b as int / d as int > u64::MAX ==> r is None,
        d != 0 && a as int * b as int / d as int <= u64::MAX ==> r == Some(
            (a as int * b as int / d as int) as u64,
        ),
{
    if d == 0 {
        return None;
    }
    assert(a as int * b as int <= 0xffff_ffff_ffff_ffff * 0xffff_ffff_ffff_ffff)
        by (nonlinear_arith)
        requires a <= 0xffff_ffff_ffff_ffffu64 && b <= 0xffff_ffff_ffff_ffffu64,
    ;
    let p: u128 = (a as u128) * (b as u128);
    let q: u128 = p / (d as u128);
    if q > u64::MAX as u128 {
        None
    } else {
        Some(q as u64)
    }
}

/// Floor square root of a 128-bit value; always fits in 64 bits.
pub fn isqrt_u128(x: u128) -> (r: u64)
    ensures
        r as nat == sqrt_floor(x as nat),
{
    let mut lo: u128 = 0;
    let mut hi: u128 = 0x1_0000_0000_0000_0000;
    assert(x < 0x1_0000_0000_0000_0000 * 0x1_0000_0000_0000_0000);
    while lo + 1 < hi
        invariant
            lo < hi <= 0x1_0000_0000_0000_0000,
            (lo as int) * (lo as int) <= x as int,
            (x as int) < (hi as int) * (hi as int),
        decreases hi - lo,
    {
        let mid = lo + (hi - lo) / 2;
        assert(lo < mid < hi);
        assert((mid as int) * (mid as int) <= 0xffff_ffff_ffff_ffff * 0xffff_ffff_ffff_ffff)
            by (nonlinear_arith)
            requires mid <= 0xffff_ffff_ffff_ffff,
        ;
        let sq = mid * mid;
        if sq <= x {
            lo = mid;
        } else {
            hi = mid;
        }
    }
    proof {
        lemma_sqrt_floor_bounds(x as nat);
        lemma_sqrt_floor_unique(lo as nat, sqrt_floor(x as nat), x as nat);
    }
    lo as u64
}

} // verus!
