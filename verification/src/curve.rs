//! Constant-product curve: the price engine of every post-initialization
//! trade.
//!
//! Outputs round down and required inputs round up, so integer rounding can
//! only leave value in the pool; the product of the reserves never decreases
//! across a trade.

use vstd::prelude::*;

use crate::error::ErrorCode;
use crate::math::{ceil_div, lemma_ceil_div_bounds, lemma_ceil_div_vs_mul, lemma_floor_div_bounds, lemma_floor_div_vs_mul};

verus! {

/// What the pool pays out for a gross-of-curve input `a_in` against reserves
/// `(r_in, r_out)`: the constant-product output, rounded down.
pub open spec fn spec_swap_output(r_in: int, r_out: int, a_in: int) -> int {
    (r_out * a_in) / (r_in + a_in)
}

/// What the pool charges for an exact output `a_out` against reserves
/// `(r_in, r_out)`: the constant-product input, rounded up.
pub open spec fn spec_swap_input(r_in: int, r_out: int, a_out: int) -> int {
    ceil_div(r_in * a_out, r_out - a_out)
}

/// The output stays below the output reserve and never exceeds the input.
pub proof fn lemma_swap_output_bounds(r_in: int, r_out: int, a_in: int)
    requires
        0 < r_in,
        0 < r_out,
        0 <= a_in,
    ensures
        0 <= spec_swap_output(r_in, r_out, a_in) < r_out,
{
    lemma_floor_div_bounds(r_out * a_in, r_in + a_in);
    assert(0 <= r_out * a_in) by (nonlinear_arith)
        requires
            0 < r_out,
            0 <= a_in,
    ;
    lemma_floor_div_vs_mul(r_out * a_in, r_in + a_in, r_out - 1);
    assert(r_out * a_in < r_out * (r_in + a_in)) by (nonlinear_arith)
        requires
            0 < r_in,
            0 < r_out,
            0 <= a_in,
    ;
    assert(r_out * (r_in + a_in) == ((r_out - 1) + 1) * (r_in + a_in));
}

/// Swapping by exact input keeps the product of the reserves: it never
/// decreases, and rounding down the output grows it by less than one unit of
/// the post-trade input reserve.
pub proof fn lemma_swap_output_preserves_product(r_in: int, r_out: int, a_in: int)
    requires
        0 < r_in,
        0 < r_out,
        0 <= a_in,
    ensures
        r_in * r_out <= (r_in + a_in) * (r_out - spec_swap_output(r_in, r_out, a_in)),
        (r_in + a_in) * (r_out - spec_swap_output(r_in, r_out, a_in)) < r_in * r_out + (r_in + a_in),
{
    let d = r_in + a_in;
    let q = spec_swap_output(r_in, r_out, a_in);
    assert(0 <= r_out * a_in) by (nonlinear_arith)
        requires
            0 < r_out,
            0 <= a_in,
    ;
    lemma_floor_div_bounds(r_out * a_in, d);
    assert(d * q <= r_out * a_in < d * q + d);
    assert(d * (r_out - q) == d * r_out - d * q) by (nonlinear_arith);
    assert(d * r_out - r_out * a_in == r_in * r_out) by (nonlinear_arith)
        requires
            d == r_in + a_in,
    ;
}

/// Swapping by exact output keeps the product of the reserves: rounding the
/// required input up never lets the product decrease.
pub proof fn lemma_swap_input_preserves_product(r_in: int, r_out: int, a_out: int)
    requires
        0 < r_in,
        0 <= a_out < r_out,
    ensures
        0 <= spec_swap_input(r_in, r_out, a_out),
        r_in * r_out <= (r_in + spec_swap_input(r_in, r_out, a_out)) * (r_out - a_out),
{
    let den = r_out - a_out;
    let c = spec_swap_input(r_in, r_out, a_out);
    assert(0 <= r_in * a_out) by (nonlinear_arith)
        requires
            0 < r_in,
            0 <= a_out,
    ;
    lemma_ceil_div_bounds(r_in * a_out, den);
    assert(r_in * a_out <= den * c);
    assert((r_in + c) * den == r_in * den + den * c) by (nonlinear_arith);
    assert(r_in * den + r_in * a_out == r_in * r_out) by (nonlinear_arith)
        requires
            den == r_out - a_out,
    ;
}

/// Quoting by exact output is consistent with quoting by exact input: the
/// input the curve charges for the output it just paid never exceeds the
/// input that bought it.
pub proof fn lemma_swap_round_trip(r_in: int, r_out: int, a_in: int)
    requires
        0 < r_in,
        0 < r_out,
        0 <= a_in,
    ensures
        spec_swap_input(r_in, r_out, spec_swap_output(r_in, r_out, a_in)) <= a_in,
{
    let d = r_in + a_in;
    let q = spec_swap_output(r_in, r_out, a_in);
    lemma_swap_output_bounds(r_in, r_out, a_in);
    assert(0 <= r_out * a_in) by (nonlinear_arith)
        requires
            0 < r_out,
            0 <= a_in,
    ;
    lemma_floor_div_bounds(r_out * a_in, d);
    assert(d * q <= r_out * a_in);
    assert(0 <= r_in * q) by (nonlinear_arith)
        requires
            0 < r_in,
            0 <= q,
    ;
    lemma_ceil_div_vs_mul(r_in * q, r_out - q, a_in);
    assert(r_in * q <= a_in * (r_out - q)) by (nonlinear_arith)
        requires
            d * q <= r_out * a_in,
            d == r_in + a_in,
    ;
}

/// The constant-product calculator: pure pricing for both swap modes and the
/// supply check that guards every trade.
pub struct CurveCalculator {}

impl CurveCalculator {
    /// Output amount for a gross-of-curve input, rounded down in the pool's
    /// favor.
    pub fn swap_base_input_without_fees(amount_in: u64, reserve_in: u64, reserve_out: u64) -> (amount_out: u64)
        requires
            reserve_in > 0,
            reserve_out > 0,
        ensures
            amount_out as int == spec_swap_output(reserve_in as int, reserve_out as int, amount_in as int),
            amount_out < reserve_out,
    {
        proof {
            lemma_swap_output_bounds(reserve_in as int, reserve_out as int, amount_in as int);
            assert((reserve_out as int) * (amount_in as int) <= (0xFFFF_FFFF_FFFF_FFFFu64 as int) * (0xFFFF_FFFF_FFFF_FFFFu64 as int)) by (nonlinear_arith)
                requires
                    0 <= reserve_out as int <= 0xFFFF_FFFF_FFFF_FFFFu64 as int,
                    0 <= amount_in as int <= 0xFFFF_FFFF_FFFF_FFFFu64 as int,
            ;
        }
        let numerator = (reserve_out as u128) * (amount_in as u128);
        let denominator = (reserve_in as u128) + (amount_in as u128);
        (numerator / denominator) as u64
    }

    /// Input amount charged for an exact output, rounded up in the pool's
    /// favor. The result is returned wide: for adversarial arguments it can
    /// exceed the 64-bit range, and the caller compares it to its slippage
    /// bound before narrowing.
    pub fn swap_base_output_without_fees(amount_out: u64, reserve_in: u64, reserve_out: u64) -> (amount_in: u128)
        requires
            reserve_in > 0,
            amount_out < reserve_out,
        ensures
            amount_in as int == spec_swap_input(reserve_in as int, reserve_out as int, amount_out as int),
    {
        proof {
            assert(0 <= (reserve_in as int) * (amount_out as int)
                && (reserve_in as int) * (amount_out as int) <= (0xFFFF_FFFF_FFFF_FFFFu64 as int) * (0xFFFF_FFFF_FFFF_FFFFu64 as int)) by (nonlinear_arith)
                requires
                    0 <= reserve_in as int <= 0xFFFF_FFFF_FFFF_FFFFu64 as int,
                    0 <= amount_out as int <= 0xFFFF_FFFF_FFFF_FFFFu64 as int,
            ;
        }
        let numerator = (reserve_in as u128) * (amount_out as u128);
        let denominator = (reserve_out - amount_out) as u128;
        (numerator + denominator - 1) / denominator
    }

    /// A trade needs both reserves strictly positive; an empty side is
    /// rejected.
    pub fn validate_supply(token_0_amount: u64, token_1_amount: u64) -> (r: Result<(), ErrorCode>)
        ensures
            r is Ok <==> (token_0_amount > 0 && token_1_amount > 0),
            r is Err ==> r == Err::<(), ErrorCode>(ErrorCode::EmptySupply),
    {
        if token_0_amount == 0 || token_1_amount == 0 {
            Err(ErrorCode::EmptySupply)
        } else {
            Ok(())
        }
    }
}

} // verus!
