//! The two swap entry modes: exact input and exact output, with fee
//! splitting, slippage protection and atomic state update.

use vstd::prelude::*;

use crate::curve::{lemma_swap_input_preserves_product, lemma_swap_output_preserves_product, lemma_swap_round_trip, spec_swap_input, spec_swap_output, CurveCalculator};
use crate::error::ErrorCode;
use crate::fees::{gross_amount_for_net, lemma_gross_covers_net, lemma_gross_identity_zero_rate, lemma_total_fees_bounds, spec_fee, spec_gross_for_net, spec_net_amount, split_fees};
use crate::states::{AmmConfig, PoolState, FEE_RATE_DENOMINATOR};

verus! {

/// Which token enters the pool in this trade.
#[derive(Clone, Copy, Debug, PartialEq, Eq, Structural)]
pub enum TradeDirection {
    /// Token 0 comes in, token 1 goes out.
    ZeroForOne,
    /// Token 1 comes in, token 0 goes out.
    OneForZero,
}

/// The reserve of the entering token.
pub open spec fn spec_reserve_in(pool: PoolState, direction: TradeDirection) -> int {
    match direction {
        TradeDirection::ZeroForOne => pool.token_0_reserve as int,
        TradeDirection::OneForZero => pool.token_1_reserve as int,
    }
}

/// The reserve of the leaving token.
pub open spec fn spec_reserve_out(pool: PoolState, direction: TradeDirection) -> int {
    match direction {
        TradeDirection::ZeroForOne => pool.token_1_reserve as int,
        TradeDirection::OneForZero => pool.token_0_reserve as int,
    }
}

/// Accrued protocol fees on the entering token's side.
pub open spec fn spec_protocol_fees_in(pool: PoolState, direction: TradeDirection) -> int {
    match direction {
        TradeDirection::ZeroForOne => pool.protocol_fees_0 as int,
        TradeDirection::OneForZero => pool.protocol_fees_1 as int,
    }
}

/// Accrued fund fees on the entering token's side.
pub open spec fn spec_fund_fees_in(pool: PoolState, direction: TradeDirection) -> int {
    match direction {
        TradeDirection::ZeroForOne => pool.fund_fees_0 as int,
        TradeDirection::OneForZero => pool.fund_fees_1 as int,
    }
}

/// Accrued protocol fees on the leaving token's side.
pub open spec fn spec_protocol_fees_out(pool: PoolState, direction: TradeDirection) -> int {
    match direction {
        TradeDirection::ZeroForOne => pool.protocol_fees_1 as int,
        TradeDirection::OneForZero => pool.protocol_fees_0 as int,
    }
}

/// Accrued fund fees on the leaving token's side.
pub open spec fn spec_fund_fees_out(pool: PoolState, direction: TradeDirection) -> int {
    match direction {
        TradeDirection::ZeroForOne => pool.fund_fees_1 as int,
        TradeDirection::OneForZero => pool.fund_fees_0 as int,
    }
}

/// The pool accepts trades from its opening time on.
pub open spec fn spec_trade_open(pool: PoolState, block_timestamp: int) -> bool {
    block_timestamp >= pool.open_time
}

/// Both reserves are positive, so the curve has something to price against.
pub open spec fn spec_has_supply(pool: PoolState) -> bool {
    pool.token_0_reserve > 0 && pool.token_1_reserve > 0
}

/// What a base-input swap pays out: the curve's output for the net part of
/// the gross input.
pub open spec fn spec_amount_out_base_input(
    pool: PoolState,
    config: AmmConfig,
    direction: TradeDirection,
    amount_in: int,
) -> int {
    spec_swap_output(
        spec_reserve_in(pool, direction),
        spec_reserve_out(pool, direction),
        spec_net_amount(amount_in, config),
    )
}

/// The net input the curve requires for an exact output.
pub open spec fn spec_required_net_input(
    pool: PoolState,
    direction: TradeDirection,
    amount_out: int,
) -> int {
    spec_swap_input(
        spec_reserve_in(pool, direction),
        spec_reserve_out(pool, direction),
        amount_out,
    )
}

/// The gross input a base-output swap charges for an exact output: the
/// back-calculated amount whose net part covers the curve's requirement.
pub open spec fn spec_required_gross_input(
    pool: PoolState,
    config: AmmConfig,
    direction: TradeDirection,
    amount_out: int,
) -> int {
    spec_gross_for_net(
        spec_required_net_input(pool, direction, amount_out),
        config.spec_total_fee_rate(),
    )
}

/// A base-input swap's state update would leave the 64-bit range.
pub open spec fn spec_base_input_overflows(
    pool: PoolState,
    config: AmmConfig,
    direction: TradeDirection,
    amount_in: int,
) -> bool {
    ||| spec_reserve_in(pool, direction) + spec_net_amount(amount_in, config)
        + spec_fee(amount_in, config.lp_fee_rate as int) > u64::MAX
    ||| spec_protocol_fees_in(pool, direction)
        + spec_fee(amount_in, config.protocol_fee_rate as int) > u64::MAX
    ||| spec_fund_fees_in(pool, direction)
        + spec_fee(amount_in, config.fund_fee_rate as int) > u64::MAX
}

/// A base-output swap's state update would leave the 64-bit range.
pub open spec fn spec_base_output_overflows(
    pool: PoolState,
    config: AmmConfig,
    direction: TradeDirection,
    amount_out: int,
) -> bool {
    let gross = spec_required_gross_input(pool, config, direction, amount_out);
    ||| spec_reserve_in(pool, direction) + spec_net_amount(gross, config)
        + spec_fee(gross, config.lp_fee_rate as int) > u64::MAX
    ||| spec_protocol_fees_in(pool, direction)
        + spec_fee(gross, config.protocol_fee_rate as int) > u64::MAX
    ||| spec_fund_fees_in(pool, direction)
        + spec_fee(gross, config.fund_fee_rate as int) > u64::MAX
}

/// Swaps an exact gross input for whatever the curve pays, rejecting the
/// trade when the payout falls short of the caller's minimum. Fee tiers come
/// off the input first; the liquidity-provider tier stays in the reserves,
/// the protocol and fund tiers accrue, and the creator tier leaves the pool.
/// On any error the pool is untouched.
pub fn swap_base_input(
    pool: &mut PoolState,
    config: &AmmConfig,
    direction: TradeDirection,
    block_timestamp: u64,
    amount_in: u64,
    minimum_amount_out: u64,
) -> (r: Result<u64, ErrorCode>)
    requires
        old(pool).well_formed(),
        config.well_formed(),
    ensures
        final(pool).well_formed(),
        r is Err ==> *final(pool) == *old(pool),
        (r == Err::<u64, ErrorCode>(ErrorCode::NotApproved)) <==> !spec_trade_open(
            *old(pool),
            block_timestamp as int,
        ),
        (r == Err::<u64, ErrorCode>(ErrorCode::EmptySupply)) <==> (spec_trade_open(
            *old(pool),
            block_timestamp as int,
        ) && !spec_has_supply(*old(pool))),
        (r == Err::<u64, ErrorCode>(ErrorCode::ZeroTradingTokens)) <==> (spec_trade_open(
            *old(pool),
            block_timestamp as int,
        ) && spec_has_supply(*old(pool)) && spec_amount_out_base_input(
            *old(pool),
            *config,
            direction,
            amount_in as int,
        ) == 0),
        (r == Err::<u64, ErrorCode>(ErrorCode::ExceededSlippage)) <==> (spec_trade_open(
            *old(pool),
            block_timestamp as int,
        ) && spec_has_supply(*old(pool)) && 0 < spec_amount_out_base_input(
            *old(pool),
            *config,
            direction,
            amount_in as int,
        ) < minimum_amount_out),
        (r == Err::<u64, ErrorCode>(ErrorCode::InvalidInput)) <==> (spec_trade_open(
            *old(pool),
            block_timestamp as int,
        ) && spec_has_supply(*old(pool)) && spec_amount_out_base_input(
            *old(pool),
            *config,
            direction,
            amount_in as int,
        ) >= minimum_amount_out && spec_amount_out_base_input(
            *old(pool),
            *config,
            direction,
            amount_in as int,
        ) > 0 && spec_base_input_overflows(*old(pool), *config, direction, amount_in as int)),
        r is Ok <==> (spec_trade_open(*old(pool), block_timestamp as int) && spec_has_supply(
            *old(pool),
        ) && spec_amount_out_base_input(*old(pool), *config, direction, amount_in as int) > 0
            && spec_amount_out_base_input(*old(pool), *config, direction, amount_in as int)
            >= minimum_amount_out && !spec_base_input_overflows(
            *old(pool),
            *config,
            direction,
            amount_in as int,
        )),
        r matches Ok(amount_out) ==> {
            &&& amount_out as int == spec_amount_out_base_input(
                *old(pool),
                *config,
                direction,
                amount_in as int,
            )
            &&& amount_out >= minimum_amount_out
            &&& spec_reserve_in(*final(pool), direction) == spec_reserve_in(*old(pool), direction)
                + spec_net_amount(amount_in as int, *config)
                + spec_fee(amount_in as int, config.lp_fee_rate as int)
            &&& spec_reserve_out(*final(pool), direction) == spec_reserve_out(*old(pool), direction)
                - amount_out
            &&& spec_protocol_fees_in(*final(pool), direction) == spec_protocol_fees_in(
                *old(pool),
                direction,
            ) + spec_fee(amount_in as int, config.protocol_fee_rate as int)
            &&& spec_fund_fees_in(*final(pool), direction) == spec_fund_fees_in(*old(pool), direction)
                + spec_fee(amount_in as int, config.fund_fee_rate as int)
            &&& spec_protocol_fees_out(*final(pool), direction) == spec_protocol_fees_out(
                *old(pool),
                direction,
            )
            &&& spec_fund_fees_out(*final(pool), direction) == spec_fund_fees_out(*old(pool), direction)
            &&& final(pool).spec_constant_product() >= old(pool).spec_constant_product()
        },
        final(pool).token_0_mint == old(pool).token_0_mint,
        final(pool).token_1_mint == old(pool).token_1_mint,
        final(pool).lp_supply == old(pool).lp_supply,
        final(pool).open_time == old(pool).open_time,
        final(pool).amm == old(pool).amm,
{
    if block_timestamp < pool.open_time {
        return Err(ErrorCode::NotApproved);
    }
    if let Err(e) = CurveCalculator::validate_supply(pool.token_0_reserve, pool.token_1_reserve) {
        return Err(e);
    }
    let (reserve_in, reserve_out) = match direction {
        TradeDirection::ZeroForOne => (pool.token_0_reserve, pool.token_1_reserve),
        TradeDirection::OneForZero => (pool.token_1_reserve, pool.token_0_reserve),
    };
    let fees = split_fees(amount_in, config);
    proof {
        lemma_total_fees_bounds(amount_in as int, *config);
    }
    let net_amount = amount_in - fees.lp_fee - fees.protocol_fee - fees.fund_fee - fees.creator_fee;
    let amount_out = CurveCalculator::swap_base_input_without_fees(net_amount, reserve_in, reserve_out);
    if amount_out == 0 {
        return Err(ErrorCode::ZeroTradingTokens);
    }
    if amount_out < minimum_amount_out {
        return Err(ErrorCode::ExceededSlippage);
    }
    let new_reserve_in = (reserve_in as u128) + (net_amount as u128) + (fees.lp_fee as u128);
    let (old_protocol, old_fund) = match direction {
        TradeDirection::ZeroForOne => (pool.protocol_fees_0, pool.fund_fees_0),
        TradeDirection::OneForZero => (pool.protocol_fees_1, pool.fund_fees_1),
    };
    let new_protocol = (old_protocol as u128) + (fees.protocol_fee as u128);
    let new_fund = (old_fund as u128) + (fees.fund_fee as u128);
    let limit = 0xFFFF_FFFF_FFFF_FFFFu128;
    if new_reserve_in > limit || new_protocol > limit || new_fund > limit {
        return Err(ErrorCode::InvalidInput);
    }
    proof {
        let r_in = reserve_in as int;
        let r_out = reserve_out as int;
        let net = net_amount as int;
        lemma_swap_output_preserves_product(r_in, r_out, net);
        assert((r_in + net + fees.lp_fee) * (r_out - amount_out) >= (r_in + net) * (r_out
            - amount_out)) by (nonlinear_arith)
            requires
                fees.lp_fee >= 0,
                r_out - amount_out >= 0,
                r_in + net >= 0,
        ;
        assert(r_in * r_out == r_out * r_in) by (nonlinear_arith);
        assert(((r_in + net + fees.lp_fee) as int) * ((r_out - amount_out) as int) == ((r_out
            - amount_out) as int) * ((r_in + net + fees.lp_fee) as int)) by (nonlinear_arith);
    }
    match direction {
        TradeDirection::ZeroForOne => {
            pool.token_0_reserve = new_reserve_in as u64;
            pool.token_1_reserve = reserve_out - amount_out;
            pool.protocol_fees_0 = new_protocol as u64;
            pool.fund_fees_0 = new_fund as u64;
        },
        TradeDirection::OneForZero => {
            pool.token_1_reserve = new_reserve_in as u64;
            pool.token_0_reserve = reserve_out - amount_out;
            pool.protocol_fees_1 = new_protocol as u64;
            pool.fund_fees_1 = new_fund as u64;
        },
    }
    Ok(amount_out)
}

/// Swaps for an exact output, charging the gross input whose net part covers
/// the curve's requirement, and rejecting the trade when that charge exceeds
/// the caller's maximum. Fee accounting follows the base-input mode. On any
/// error the pool is untouched.
pub fn swap_base_output(
    pool: &mut PoolState,
    config: &AmmConfig,
    direction: TradeDirection,
    block_timestamp: u64,
    max_amount_in: u64,
    amount_out: u64,
) -> (r: Result<u64, ErrorCode>)
    requires
        old(pool).well_formed(),
        config.well_formed(),
        config.spec_total_fee_rate() < FEE_RATE_DENOMINATOR,
    ensures
        final(pool).well_formed(),
        r is Err ==> *final(pool) == *old(pool),
        (r == Err::<u64, ErrorCode>(ErrorCode::NotApproved)) <==> !spec_trade_open(
            *old(pool),
            block_timestamp as int,
        ),
        (r == Err::<u64, ErrorCode>(ErrorCode::EmptySupply)) <==> (spec_trade_open(
            *old(pool),
            block_timestamp as int,
        ) && !spec_has_supply(*old(pool))),
        (r == Err::<u64, ErrorCode>(ErrorCode::ZeroTradingTokens)) <==> (spec_trade_open(
            *old(pool),
            block_timestamp as int,
        ) && spec_has_supply(*old(pool)) && (amount_out == 0 || amount_out >= spec_reserve_out(
            *old(pool),
            direction,
        ))),
        (r == Err::<u64, ErrorCode>(ErrorCode::ExceededSlippage)) <==> (spec_trade_open(
            *old(pool),
            block_timestamp as int,
        ) && spec_has_supply(*old(pool)) && 0 < amount_out < spec_reserve_out(*old(pool), direction)
            && spec_required_gross_input(*old(pool), *config, direction, amount_out as int)
            > max_amount_in),
        (r == Err::<u64, ErrorCode>(ErrorCode::InvalidInput)) <==> (spec_trade_open(
            *old(pool),
            block_timestamp as int,
        ) && spec_has_supply(*old(pool)) && 0 < amount_out < spec_reserve_out(*old(pool), direction)
            && spec_required_gross_input(*old(pool), *config, direction, amount_out as int)
            <= max_amount_in && spec_base_output_overflows(
            *old(pool),
            *config,
            direction,
            amount_out as int,
        )),
        r is Ok <==> (spec_trade_open(*old(pool), block_timestamp as int) && spec_has_supply(
            *old(pool),
        ) && 0 < amount_out < spec_reserve_out(*old(pool), direction) && spec_required_gross_input(
            *old(pool),
            *config,
            direction,
            amount_out as int,
        ) <= max_amount_in && !spec_base_output_overflows(
            *old(pool),
            *config,
            direction,
            amount_out as int,
        )),
        r matches Ok(amount_in) ==> {
            &&& amount_in as int == spec_required_gross_input(
                *old(pool),
                *config,
                direction,
                amount_out as int,
            )
            &&& amount_in <= max_amount_in
            &&& spec_reserve_in(*final(pool), direction) == spec_reserve_in(*old(pool), direction)
                + spec_net_amount(amount_in as int, *config)
                + spec_fee(amount_in as int, config.lp_fee_rate as int)
            &&& spec_reserve_out(*final(pool), direction) == spec_reserve_out(*old(pool), direction)
                - amount_out
            &&& spec_protocol_fees_in(*final(pool), direction) == spec_protocol_fees_in(
                *old(pool),
                direction,
            ) + spec_fee(amount_in as int, config.protocol_fee_rate as int)
            &&& spec_fund_fees_in(*final(pool), direction) == spec_fund_fees_in(*old(pool), direction)
                + spec_fee(amount_in as int, config.fund_fee_rate as int)
            &&& spec_protocol_fees_out(*final(pool), direction) == spec_protocol_fees_out(
                *old(pool),
                direction,
            )
            &&& spec_fund_fees_out(*final(pool), direction) == spec_fund_fees_out(*old(pool), direction)
            &&& final(pool).spec_constant_product() >= old(pool).spec_constant_product()
        },
        final(pool).token_0_mint == old(pool).token_0_mint,
        final(pool).token_1_mint == old(pool).token_1_mint,
        final(pool).lp_supply == old(pool).lp_supply,
        final(pool).open_time == old(pool).open_time,
        final(pool).amm == old(pool).amm,
{
    if block_timestamp < pool.open_time {
        return Err(ErrorCode::NotApproved);
    }
    if let Err(e) = CurveCalculator::validate_supply(pool.token_0_reserve, pool.token_1_reserve) {
        return Err(e);
    }
    let (reserve_in, reserve_out) = match direction {
        TradeDirection::ZeroForOne => (pool.token_0_reserve, pool.token_1_reserve),
        TradeDirection::OneForZero => (pool.token_1_reserve, pool.token_0_reserve),
    };
    if amount_out == 0 || amount_out >= reserve_out {
        return Err(ErrorCode::ZeroTradingTokens);
    }
    let net_needed = CurveCalculator::swap_base_output_without_fees(amount_out, reserve_in, reserve_out);
    let limit = 0xFFFF_FFFF_FFFF_FFFFu128;
    if net_needed > limit {
        proof {
            lemma_gross_covers_net(net_needed as int, *config);
        }
        return Err(ErrorCode::ExceededSlippage);
    }
    let gross_wide = gross_amount_for_net(net_needed as u64, config);
    if gross_wide > max_amount_in as u128 {
        return Err(ErrorCode::ExceededSlippage);
    }
    let amount_in = gross_wide as u64;
    let fees = split_fees(amount_in, config);
    proof {
        lemma_total_fees_bounds(amount_in as int, *config);
    }
    let net_amount = amount_in - fees.lp_fee - fees.protocol_fee - fees.fund_fee - fees.creator_fee;
    let new_reserve_in = (reserve_in as u128) + (net_amount as u128) + (fees.lp_fee as u128);
    let (old_protocol, old_fund) = match direction {
        TradeDirection::ZeroForOne => (pool.protocol_fees_0, pool.fund_fees_0),
        TradeDirection::OneForZero => (pool.protocol_fees_1, pool.fund_fees_1),
    };
    let new_protocol = (old_protocol as u128) + (fees.protocol_fee as u128);
    let new_fund = (old_fund as u128) + (fees.fund_fee as u128);
    if new_reserve_in > limit || new_protocol > limit || new_fund > limit {
        return Err(ErrorCode::InvalidInput);
    }
    proof {
        let r_in = reserve_in as int;
        let r_out = reserve_out as int;
        let net = net_amount as int;
        let needed = net_needed as int;
        lemma_gross_covers_net(needed, *config);
        lemma_swap_input_preserves_product(r_in, r_out, amount_out as int);
        assert((r_in + net + fees.lp_fee) * (r_out - amount_out) >= (r_in + needed) * (r_out
            - amount_out)) by (nonlinear_arith)
            requires
                net + fees.lp_fee >= needed,
                r_out - amount_out >= 0,
                r_in + needed >= 0,
        ;
        assert(r_in * r_out == r_out * r_in) by (nonlinear_arith);
        assert(((r_in + net + fees.lp_fee) as int) * ((r_out - amount_out) as int) == ((r_out
            - amount_out) as int) * ((r_in + net + fees.lp_fee) as int)) by (nonlinear_arith);
    }
    match direction {
        TradeDirection::ZeroForOne => {
            pool.token_0_reserve = new_reserve_in as u64;
            pool.token_1_reserve = reserve_out - amount_out;
            pool.protocol_fees_0 = new_protocol as u64;
            pool.fund_fees_0 = new_fund as u64;
        },
        TradeDirection::OneForZero => {
            pool.token_1_reserve = new_reserve_in as u64;
            pool.token_0_reserve = reserve_out - amount_out;
            pool.protocol_fees_1 = new_protocol as u64;
            pool.fund_fees_1 = new_fund as u64;
        },
    }
    Ok(amount_in)
}

/// Law: with every fee rate zero, a base-input swap followed by a base-output
/// quote of the exact amount it paid never charges more than the input the
/// swap consumed — rounding never favors the trader across the round trip.
pub proof fn lemma_swap_round_trip_no_fees(
    pool: PoolState,
    config: AmmConfig,
    direction: TradeDirection,
    amount_in: u64,
)
    requires
        config.lp_fee_rate == 0,
        config.protocol_fee_rate == 0,
        config.fund_fee_rate == 0,
        config.creator_fee_rate == 0,
        spec_has_supply(pool),
    ensures
        spec_required_gross_input(
            pool,
            config,
            direction,
            spec_amount_out_base_input(pool, config, direction, amount_in as int),
        ) <= amount_in as int,
{
    let r_in = spec_reserve_in(pool, direction);
    let r_out = spec_reserve_out(pool, direction);
    let a = amount_in as int;
    assert(spec_fee(a, 0) == 0) by {
        assert(a * 0 == 0) by (nonlinear_arith);
    }
    assert(spec_net_amount(a, config) == a);
    let out = spec_amount_out_base_input(pool, config, direction, a);
    crate::curve::lemma_swap_output_bounds(r_in, r_out, a);
    lemma_swap_round_trip(r_in, r_out, a);
    let needed = spec_required_net_input(pool, direction, out);
    assert(needed <= a);
    lemma_swap_round_trip_nonnegative(r_in, r_out, out, needed);
    lemma_gross_identity_zero_rate(needed);
}

/// The required net input of a feasible output is non-negative.
proof fn lemma_swap_round_trip_nonnegative(r_in: int, r_out: int, a_out: int, needed: int)
    requires
        0 < r_in,
        0 <= a_out < r_out,
        needed == spec_swap_input(r_in, r_out, a_out),
    ensures
        0 <= needed,
{
    lemma_swap_input_preserves_product(r_in, r_out, a_out);
}

} // verus!
