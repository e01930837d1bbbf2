//! Liquidity operations: minting shares against proportional deposits and
//! burning shares for proportional withdrawals.
//!
//! Deposits round the owed tokens up and withdrawals round the paid tokens
//! down, so integer rounding never creates value for the share holder.

use vstd::prelude::*;

use crate::error::ErrorCode;
use crate::math::{ceil_div, lemma_ceil_div_bounds, lemma_floor_div_bounds, lemma_floor_div_vs_mul};
use crate::states::{PoolState, LOCK_LP_AMOUNT};

verus! {

/// Tokens one side of the pool requires for `lp_token_amount` new shares:
/// the proportional amount, rounded up in the pool's favor.
pub open spec fn spec_deposit_amount(lp_token_amount: int, reserve: int, lp_supply: int) -> int {
    ceil_div(lp_token_amount * reserve, lp_supply)
}

/// Tokens one side of the pool pays for `lp_token_amount` burned shares:
/// the proportional amount, rounded down in the pool's favor.
pub open spec fn spec_withdraw_amount(lp_token_amount: int, reserve: int, lp_supply: int) -> int {
    (lp_token_amount * reserve) / lp_supply
}

/// Law: depositing shares and withdrawing the same shares right away, with no
/// trade in between, pays back at most what was deposited — rounding cannot
/// create value. Stated per token side.
pub proof fn lemma_deposit_withdraw_no_gain(lp_token_amount: int, reserve: int, lp_supply: int)
    requires
        0 < lp_supply,
        0 <= lp_token_amount,
        0 <= reserve,
    ensures
        spec_withdraw_amount(
            lp_token_amount,
            reserve + spec_deposit_amount(lp_token_amount, reserve, lp_supply),
            lp_supply + lp_token_amount,
        ) <= spec_deposit_amount(lp_token_amount, reserve, lp_supply),
{
    let lp = lp_token_amount;
    let s = lp_supply;
    let r = reserve;
    assert(0 <= lp * r) by (nonlinear_arith)
        requires
            0 <= lp,
            0 <= r,
    ;
    lemma_ceil_div_bounds(lp * r, s);
    let d = spec_deposit_amount(lp, r, s);
    assert(lp * r <= s * d);
    assert(0 <= lp * (r + d)) by (nonlinear_arith)
        requires
            0 <= lp,
            0 <= r + d,
    ;
    lemma_floor_div_vs_mul(lp * (r + d), s + lp, d);
    assert(lp * (r + d) < (d + 1) * (s + lp)) by (nonlinear_arith)
        requires
            lp * r <= s * d,
            0 < s + lp,
            0 <= d,
            0 <= lp,
    ;
}

/// Law: a deposit keeps the price. The two owed amounts stand in the same
/// ratio as the reserves, up to less than one rounding unit on each side:
/// the cross products of owed amounts and opposite reserves differ by less
/// than one reserve unit.
pub proof fn lemma_deposit_preserves_ratio(lp_token_amount: int, r0: int, r1: int, lp_supply: int)
    requires
        0 < lp_supply,
        0 <= lp_token_amount,
        0 < r0,
        0 < r1,
    ensures
        spec_deposit_amount(lp_token_amount, r0, lp_supply) * r1 - spec_deposit_amount(
            lp_token_amount,
            r1,
            lp_supply,
        ) * r0 < r1,
        spec_deposit_amount(lp_token_amount, r0, lp_supply) * r1 - spec_deposit_amount(
            lp_token_amount,
            r1,
            lp_supply,
        ) * r0 > -r0,
{
    let lp = lp_token_amount;
    let s = lp_supply;
    assert(0 <= lp * r0 && 0 <= lp * r1) by (nonlinear_arith)
        requires
            0 <= lp,
            0 <= r0,
            0 <= r1,
    ;
    lemma_ceil_div_bounds(lp * r0, s);
    lemma_ceil_div_bounds(lp * r1, s);
    let d0 = spec_deposit_amount(lp, r0, s);
    let d1 = spec_deposit_amount(lp, r1, s);
    let cross = d0 * r1 - d1 * r0;
    assert(s * cross <= (s - 1) * r1 && s * cross >= -((s - 1) * r0)) by (nonlinear_arith)
        requires
            cross == d0 * r1 - d1 * r0,
            lp * r0 <= s * d0 <= lp * r0 + s - 1,
            lp * r1 <= s * d1 <= lp * r1 + s - 1,
            0 <= r0,
            0 <= r1,
    ;
    assert(cross < r1 && cross > -r0) by (nonlinear_arith)
        requires
            s * cross <= (s - 1) * r1,
            s * cross >= -((s - 1) * r0),
            0 < s,
            0 < r0,
            0 < r1,
    ;
}

/// Law: a withdrawal keeps the price. The two payouts stand in the same
/// ratio as the reserves, up to less than one rounding unit on each side.
pub proof fn lemma_withdraw_preserves_ratio(lp_token_amount: int, r0: int, r1: int, lp_supply: int)
    requires
        0 < lp_supply,
        0 <= lp_token_amount,
        0 < r0,
        0 < r1,
    ensures
        spec_withdraw_amount(lp_token_amount, r0, lp_supply) * r1 - spec_withdraw_amount(
            lp_token_amount,
            r1,
            lp_supply,
        ) * r0 < r0,
        spec_withdraw_amount(lp_token_amount, r0, lp_supply) * r1 - spec_withdraw_amount(
            lp_token_amount,
            r1,
            lp_supply,
        ) * r0 > -r1,
{
    let lp = lp_token_amount;
    let s = lp_supply;
    assert(0 <= lp * r0 && 0 <= lp * r1) by (nonlinear_arith)
        requires
            0 <= lp,
            0 <= r0,
            0 <= r1,
    ;
    lemma_floor_div_bounds(lp * r0, s);
    lemma_floor_div_bounds(lp * r1, s);
    let w0 = spec_withdraw_amount(lp, r0, s);
    let w1 = spec_withdraw_amount(lp, r1, s);
    let cross = w0 * r1 - w1 * r0;
    assert(s * cross <= (s - 1) * r0 && s * cross >= -((s - 1) * r1)) by (nonlinear_arith)
        requires
            cross == w0 * r1 - w1 * r0,
            lp * r0 - s + 1 <= s * w0 <= lp * r0,
            lp * r1 - s + 1 <= s * w1 <= lp * r1,
            0 <= r0,
            0 <= r1,
    ;
    assert(cross < r0 && cross > -r1) by (nonlinear_arith)
        requires
            s * cross <= (s - 1) * r0,
            s * cross >= -((s - 1) * r1),
            0 < s,
            0 < r0,
            0 < r1,
    ;
}

/// Mints `lp_token_amount` new shares against proportional deposits of both
/// tokens, each rounded up, rejecting the trade when either owed amount
/// exceeds its caller maximum. No fee is taken. On any error the pool is
/// untouched.
pub fn deposit(
    pool: &mut PoolState,
    lp_token_amount: u64,
    maximum_token_0_amount: u64,
    maximum_token_1_amount: u64,
) -> (r: Result<(u64, u64), ErrorCode>)
    requires
        old(pool).well_formed(),
    ensures
        final(pool).well_formed(),
        r is Err ==> *final(pool) == *old(pool),
        (r == Err::<(u64, u64), ErrorCode>(ErrorCode::ExceededSlippage)) <==> {
            ||| spec_deposit_amount(
                lp_token_amount as int,
                old(pool).token_0_reserve as int,
                old(pool).lp_supply as int,
            ) > maximum_token_0_amount
            ||| spec_deposit_amount(
                lp_token_amount as int,
                old(pool).token_1_reserve as int,
                old(pool).lp_supply as int,
            ) > maximum_token_1_amount
        },
        (r == Err::<(u64, u64), ErrorCode>(ErrorCode::InvalidInput)) <==> {
            &&& spec_deposit_amount(
                lp_token_amount as int,
                old(pool).token_0_reserve as int,
                old(pool).lp_supply as int,
            ) <= maximum_token_0_amount
            &&& spec_deposit_amount(
                lp_token_amount as int,
                old(pool).token_1_reserve as int,
                old(pool).lp_supply as int,
            ) <= maximum_token_1_amount
            &&& {
                ||| old(pool).token_0_reserve + spec_deposit_amount(
                    lp_token_amount as int,
                    old(pool).token_0_reserve as int,
                    old(pool).lp_supply as int,
                ) > u64::MAX
                ||| old(pool).token_1_reserve + spec_deposit_amount(
                    lp_token_amount as int,
                    old(pool).token_1_reserve as int,
                    old(pool).lp_supply as int,
                ) > u64::MAX
                ||| old(pool).lp_supply + lp_token_amount > u64::MAX
            }
        },
        r is Ok || r == Err::<(u64, u64), ErrorCode>(ErrorCode::ExceededSlippage) || r == Err::<
            (u64, u64),
            ErrorCode,
        >(ErrorCode::InvalidInput),
        r matches Ok((amount_0, amount_1)) ==> {
            &&& amount_0 as int == spec_deposit_amount(
                lp_token_amount as int,
                old(pool).token_0_reserve as int,
                old(pool).lp_supply as int,
            )
            &&& amount_1 as int == spec_deposit_amount(
                lp_token_amount as int,
                old(pool).token_1_reserve as int,
                old(pool).lp_supply as int,
            )
            &&& amount_0 <= maximum_token_0_amount
            &&& amount_1 <= maximum_token_1_amount
            &&& *final(pool) == (PoolState {
                token_0_reserve: (old(pool).token_0_reserve + amount_0) as u64,
                token_1_reserve: (old(pool).token_1_reserve + amount_1) as u64,
                lp_supply: (old(pool).lp_supply + lp_token_amount) as u64,
                ..*old(pool)
            })
        },
{
    let lp_supply = pool.lp_supply;
    proof {
        lemma_deposit_fits(lp_token_amount as int, pool.token_0_reserve as int, lp_supply as int);
        lemma_deposit_fits(lp_token_amount as int, pool.token_1_reserve as int, lp_supply as int);
    }
    let numerator_0 = (lp_token_amount as u128) * (pool.token_0_reserve as u128);
    let numerator_1 = (lp_token_amount as u128) * (pool.token_1_reserve as u128);
    let denominator = lp_supply as u128;
    let amount_0_wide = (numerator_0 + denominator - 1) / denominator;
    let amount_1_wide = (numerator_1 + denominator - 1) / denominator;
    if amount_0_wide > maximum_token_0_amount as u128 || amount_1_wide > maximum_token_1_amount as u128 {
        return Err(ErrorCode::ExceededSlippage);
    }
    let amount_0 = amount_0_wide as u64;
    let amount_1 = amount_1_wide as u64;
    let limit = 0xFFFF_FFFF_FFFF_FFFFu128;
    let new_reserve_0 = (pool.token_0_reserve as u128) + (amount_0 as u128);
    let new_reserve_1 = (pool.token_1_reserve as u128) + (amount_1 as u128);
    let new_supply = (lp_supply as u128) + (lp_token_amount as u128);
    if new_reserve_0 > limit || new_reserve_1 > limit || new_supply > limit {
        return Err(ErrorCode::InvalidInput);
    }
    pool.token_0_reserve = new_reserve_0 as u64;
    pool.token_1_reserve = new_reserve_1 as u64;
    pool.lp_supply = new_supply as u64;
    Ok((amount_0, amount_1))
}

/// The widened ceiling division a deposit computes stays within the 128-bit
/// range.
proof fn lemma_deposit_fits(lp_token_amount: int, reserve: int, lp_supply: int)
    requires
        0 < lp_supply <= u64::MAX,
        0 <= lp_token_amount <= u64::MAX,
        0 <= reserve <= u64::MAX,
    ensures
        0 <= lp_token_amount * reserve,
        lp_token_amount * reserve + lp_supply <= u128::MAX,
        ceil_div(lp_token_amount * reserve, lp_supply) == (lp_token_amount * reserve + lp_supply
            - 1) / lp_supply,
{
    assert(0 <= lp_token_amount * reserve <= (0xFFFF_FFFF_FFFF_FFFFu64 as int)
        * (0xFFFF_FFFF_FFFF_FFFFu64 as int)) by (nonlinear_arith)
        requires
            0 <= lp_token_amount <= 0xFFFF_FFFF_FFFF_FFFFu64 as int,
            0 <= reserve <= 0xFFFF_FFFF_FFFF_FFFFu64 as int,
    ;
}

/// Burns `lp_token_amount` shares for proportional payouts of both tokens,
/// each rounded down. The permanently locked share floor can never be
/// withdrawn; a payout that rounds to zero or falls below its caller minimum
/// rejects the trade. On any error the pool is untouched.
pub fn withdraw(
    pool: &mut PoolState,
    lp_token_amount: u64,
    minimum_token_0_amount: u64,
    minimum_token_1_amount: u64,
) -> (r: Result<(u64, u64), ErrorCode>)
    requires
        old(pool).well_formed(),
    ensures
        final(pool).well_formed(),
        r is Err ==> *final(pool) == *old(pool),
        (r == Err::<(u64, u64), ErrorCode>(ErrorCode::InvalidInput)) <==> lp_token_amount
            > old(pool).lp_supply - LOCK_LP_AMOUNT,
        (r == Err::<(u64, u64), ErrorCode>(ErrorCode::ZeroTradingTokens)) <==> (lp_token_amount
            <= old(pool).lp_supply - LOCK_LP_AMOUNT && (spec_withdraw_amount(
            lp_token_amount as int,
            old(pool).token_0_reserve as int,
            old(pool).lp_supply as int,
        ) == 0 || spec_withdraw_amount(
            lp_token_amount as int,
            old(pool).token_1_reserve as int,
            old(pool).lp_supply as int,
        ) == 0)),
        (r == Err::<(u64, u64), ErrorCode>(ErrorCode::ExceededSlippage)) <==> (lp_token_amount
            <= old(pool).lp_supply - LOCK_LP_AMOUNT && spec_withdraw_amount(
            lp_token_amount as int,
            old(pool).token_0_reserve as int,
            old(pool).lp_supply as int,
        ) > 0 && spec_withdraw_amount(
            lp_token_amount as int,
            old(pool).token_1_reserve as int,
            old(pool).lp_supply as int,
        ) > 0 && (spec_withdraw_amount(
            lp_token_amount as int,
            old(pool).token_0_reserve as int,
            old(pool).lp_supply as int,
        ) < minimum_token_0_amount || spec_withdraw_amount(
            lp_token_amount as int,
            old(pool).token_1_reserve as int,
            old(pool).lp_supply as int,
        ) < minimum_token_1_amount)),
        r is Ok <==> (lp_token_amount <= old(pool).lp_supply - LOCK_LP_AMOUNT
            && spec_withdraw_amount(
            lp_token_amount as int,
            old(pool).token_0_reserve as int,
            old(pool).lp_supply as int,
        ) >= minimum_token_0_amount && spec_withdraw_amount(
            lp_token_amount as int,
            old(pool).token_1_reserve as int,
            old(pool).lp_supply as int,
        ) >= minimum_token_1_amount && spec_withdraw_amount(
            lp_token_amount as int,
            old(pool).token_0_reserve as int,
            old(pool).lp_supply as int,
        ) > 0 && spec_withdraw_amount(
            lp_token_amount as int,
            old(pool).token_1_reserve as int,
            old(pool).lp_supply as int,
        ) > 0),
        r matches Ok((amount_0, amount_1)) ==> {
            &&& amount_0 as int == spec_withdraw_amount(
                lp_token_amount as int,
                old(pool).token_0_reserve as int,
                old(pool).lp_supply as int,
            )
            &&& amount_1 as int == spec_withdraw_amount(
                lp_token_amount as int,
                old(pool).token_1_reserve as int,
                old(pool).lp_supply as int,
            )
            &&& amount_0 >= minimum_token_0_amount
            &&& amount_1 >= minimum_token_1_amount
            &&& amount_0 > 0 && amount_1 > 0
            &&& *final(pool) == (PoolState {
                token_0_reserve: (old(pool).token_0_reserve - amount_0) as u64,
                token_1_reserve: (old(pool).token_1_reserve - amount_1) as u64,
                lp_supply: (old(pool).lp_supply - lp_token_amount) as u64,
                ..*old(pool)
            })
        },
{
    let lp_supply = pool.lp_supply;
    if lp_token_amount > lp_supply - LOCK_LP_AMOUNT {
        return Err(ErrorCode::InvalidInput);
    }
    proof {
        lemma_withdraw_fits(lp_token_amount as int, pool.token_0_reserve as int, lp_supply as int);
        lemma_withdraw_fits(lp_token_amount as int, pool.token_1_reserve as int, lp_supply as int);
    }
    let amount_0 = ((lp_token_amount as u128) * (pool.token_0_reserve as u128) / (lp_supply as u128)) as u64;
    let amount_1 = ((lp_token_amount as u128) * (pool.token_1_reserve as u128) / (lp_supply as u128)) as u64;
    if amount_0 == 0 || amount_1 == 0 {
        return Err(ErrorCode::ZeroTradingTokens);
    }
    if amount_0 < minimum_token_0_amount || amount_1 < minimum_token_1_amount {
        return Err(ErrorCode::ExceededSlippage);
    }
    pool.token_0_reserve = pool.token_0_reserve - amount_0;
    pool.token_1_reserve = pool.token_1_reserve - amount_1;
    pool.lp_supply = lp_supply - lp_token_amount;
    Ok((amount_0, amount_1))
}

/// A withdrawal of at most the whole supply pays out at most the reserve.
proof fn lemma_withdraw_fits(lp_token_amount: int, reserve: int, lp_supply: int)
    requires
        0 < lp_supply <= u64::MAX,
        0 <= lp_token_amount <= lp_supply,
        0 <= reserve <= u64::MAX,
    ensures
        0 <= lp_token_amount * reserve <= u128::MAX,
        0 <= spec_withdraw_amount(lp_token_amount, reserve, lp_supply) <= reserve,
{
    assert(0 <= lp_token_amount * reserve <= (0xFFFF_FFFF_FFFF_FFFFu64 as int)
        * (0xFFFF_FFFF_FFFF_FFFFu64 as int)) by (nonlinear_arith)
        requires
            0 <= lp_token_amount <= 0xFFFF_FFFF_FFFF_FFFFu64 as int,
            0 <= reserve <= 0xFFFF_FFFF_FFFF_FFFFu64 as int,
    ;
    lemma_floor_div_bounds(lp_token_amount * reserve, lp_supply);
    lemma_floor_div_vs_mul(lp_token_amount * reserve, lp_supply, reserve);
    assert(lp_token_amount * reserve < (reserve + 1) * lp_supply) by (nonlinear_arith)
        requires
            0 <= lp_token_amount <= lp_supply,
            0 <= reserve,
            0 < lp_supply,
    ;
}

} // verus!
