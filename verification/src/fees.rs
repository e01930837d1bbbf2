//! Fee splitter: derives the four tier amounts of a trade from its gross
//! amount, each rounded down independently, and back-calculates a gross
//! amount from a required net amount.

use vstd::prelude::*;

use crate::math::{ceil_div, lemma_ceil_div_bounds, lemma_ceil_div_vs_mul, lemma_floor_div_bounds, lemma_floor_div_vs_mul};
use crate::states::{AmmConfig, FEE_RATE_DENOMINATOR};

verus! {

/// One tier's fee on a gross amount, rounded down.
pub open spec fn spec_fee(amount: int, rate: int) -> int {
    (amount * rate) / (FEE_RATE_DENOMINATOR as int)
}

/// All four tiers' fees on a gross amount, each rounded down independently.
pub open spec fn spec_total_fees(amount: int, config: AmmConfig) -> int {
    spec_fee(amount, config.lp_fee_rate as int)
        + spec_fee(amount, config.protocol_fee_rate as int)
        + spec_fee(amount, config.fund_fee_rate as int)
        + spec_fee(amount, config.creator_fee_rate as int)
}

/// What remains of a gross amount once every tier took its fee: the part
/// that participates in the curve.
pub open spec fn spec_net_amount(amount: int, config: AmmConfig) -> int {
    amount - spec_total_fees(amount, config)
}

/// The gross amount whose net part covers a required net amount, under a
/// combined fee rate: rounded up in the pool's favor.
pub open spec fn spec_gross_for_net(net: int, total_rate: int) -> int {
    ceil_div(net * (FEE_RATE_DENOMINATOR as int), FEE_RATE_DENOMINATOR - total_rate)
}

/// One tier's fee stays within the gross amount, and scaled by the
/// denominator it stays within `amount * rate`.
pub proof fn lemma_fee_bounds(amount: int, rate: int)
    requires
        0 <= amount,
        0 <= rate <= FEE_RATE_DENOMINATOR,
    ensures
        0 <= spec_fee(amount, rate) <= amount,
        (FEE_RATE_DENOMINATOR as int) * spec_fee(amount, rate) <= amount * rate,
{
    let d = FEE_RATE_DENOMINATOR as int;
    assert(0 <= amount * rate) by (nonlinear_arith)
        requires
            0 <= amount,
            0 <= rate,
    ;
    lemma_floor_div_bounds(amount * rate, d);
    lemma_floor_div_vs_mul(amount * rate, d, amount);
    assert(amount * rate < (amount + 1) * d) by (nonlinear_arith)
        requires
            0 <= amount,
            rate <= d,
            0 < d,
    ;
}

/// The four tiers together never claim more than the gross amount, and
/// scaled by the denominator they stay within `amount * total_rate`.
pub proof fn lemma_total_fees_bounds(amount: int, config: AmmConfig)
    requires
        0 <= amount,
        config.well_formed(),
    ensures
        0 <= spec_total_fees(amount, config) <= amount,
        (FEE_RATE_DENOMINATOR as int) * spec_total_fees(amount, config)
            <= amount * config.spec_total_fee_rate(),
        0 <= spec_net_amount(amount, config) <= amount,
{
    let d = FEE_RATE_DENOMINATOR as int;
    lemma_fee_bounds(amount, config.lp_fee_rate as int);
    lemma_fee_bounds(amount, config.protocol_fee_rate as int);
    lemma_fee_bounds(amount, config.fund_fee_rate as int);
    lemma_fee_bounds(amount, config.creator_fee_rate as int);
    assert(amount * (config.lp_fee_rate as int) + amount * (config.protocol_fee_rate as int)
        + amount * (config.fund_fee_rate as int) + amount * (config.creator_fee_rate as int)
        == amount * config.spec_total_fee_rate()) by (nonlinear_arith)
        requires
            config.spec_total_fee_rate() == config.lp_fee_rate + config.protocol_fee_rate
                + config.fund_fee_rate + config.creator_fee_rate,
    ;
    assert(amount * config.spec_total_fee_rate() <= amount * d) by (nonlinear_arith)
        requires
            0 <= amount,
            config.spec_total_fee_rate() <= d,
    ;
}

/// The back-calculated gross amount is at least the net it must cover, and
/// its own net part covers it.
pub proof fn lemma_gross_covers_net(net: int, config: AmmConfig)
    requires
        0 <= net,
        config.well_formed(),
        config.spec_total_fee_rate() < FEE_RATE_DENOMINATOR,
    ensures
        net <= spec_gross_for_net(net, config.spec_total_fee_rate()),
        net <= spec_net_amount(spec_gross_for_net(net, config.spec_total_fee_rate()), config),
{
    let d = FEE_RATE_DENOMINATOR as int;
    let rate = config.spec_total_fee_rate();
    let g = spec_gross_for_net(net, rate);
    assert(0 <= net * d) by (nonlinear_arith)
        requires
            0 <= net,
            0 < d,
    ;
    lemma_ceil_div_bounds(net * d, d - rate);
    lemma_ceil_div_vs_mul(net * d, d - rate, net - 1);
    assert(!((net - 1) * (d - rate) >= net * d)) by (nonlinear_arith)
        requires
            0 <= net,
            0 <= rate < d,
    ;
    lemma_total_fees_bounds(g, config);
    assert(g * (d - rate) == g * d - g * rate) by (nonlinear_arith);
    assert(net * d <= (d - rate) * g);
    assert((d - rate) * g == g * (d - rate)) by (nonlinear_arith);
    assert(d * spec_net_amount(g, config) == d * g - d * spec_total_fees(g, config))
        by (nonlinear_arith)
        requires
            spec_net_amount(g, config) == g - spec_total_fees(g, config),
    ;
    assert(g * rate == rate * g && g * d == d * g) by (nonlinear_arith);
}

/// With every rate zero the back-calculated gross amount is the net itself.
pub proof fn lemma_gross_identity_zero_rate(net: int)
    requires
        0 <= net,
    ensures
        spec_gross_for_net(net, 0) == net,
{
    let d = FEE_RATE_DENOMINATOR as int;
    assert(0 <= net * d) by (nonlinear_arith)
        requires
            0 <= net,
            0 < d,
    ;
    lemma_ceil_div_vs_mul(net * d, d, net);
    lemma_ceil_div_vs_mul(net * d, d, net - 1);
    assert(net * d <= net * d);
    assert(!(net * d <= (net - 1) * d)) by (nonlinear_arith)
        requires
            0 < d,
    ;
}

/// The four tier amounts taken from one trade.
#[derive(Clone, Copy, Debug, PartialEq, Eq, Structural)]
pub struct TradeFees {
    /// Left in the reserves for the liquidity providers.
    pub lp_fee: u64,
    /// Accrued for the protocol.
    pub protocol_fee: u64,
    /// Accrued for the fund.
    pub fund_fee: u64,
    /// Paid out to the pool's creator.
    pub creator_fee: u64,
}

impl TradeFees {
    /// All four tiers together.
    pub open spec fn spec_total(&self) -> int {
        self.lp_fee + self.protocol_fee + self.fund_fee + self.creator_fee
    }
}

/// One tier's fee on a gross amount, rounded down.
pub fn fee_amount(amount: u64, rate: u64) -> (r: u64)
    requires
        rate <= FEE_RATE_DENOMINATOR,
    ensures
        r as int == spec_fee(amount as int, rate as int),
{
    proof {
        lemma_fee_bounds(amount as int, rate as int);
        assert((amount as int) * (rate as int)
            <= (0xFFFF_FFFF_FFFF_FFFFu64 as int) * (FEE_RATE_DENOMINATOR as int)) by (nonlinear_arith)
            requires
                0 <= amount as int <= 0xFFFF_FFFF_FFFF_FFFFu64 as int,
                0 <= rate as int <= FEE_RATE_DENOMINATOR as int,
        ;
    }
    ((amount as u128) * (rate as u128) / (FEE_RATE_DENOMINATOR as u128)) as u64
}

/// Splits a gross trade amount into the four tier fees of the configuration,
/// each rounded down independently.
pub fn split_fees(amount: u64, config: &AmmConfig) -> (fees: TradeFees)
    requires
        config.well_formed(),
    ensures
        fees.lp_fee as int == spec_fee(amount as int, config.lp_fee_rate as int),
        fees.protocol_fee as int == spec_fee(amount as int, config.protocol_fee_rate as int),
        fees.fund_fee as int == spec_fee(amount as int, config.fund_fee_rate as int),
        fees.creator_fee as int == spec_fee(amount as int, config.creator_fee_rate as int),
        fees.spec_total() == spec_total_fees(amount as int, *config),
        fees.spec_total() <= amount,
{
    proof {
        lemma_total_fees_bounds(amount as int, *config);
    }
    TradeFees {
        lp_fee: fee_amount(amount, config.lp_fee_rate),
        protocol_fee: fee_amount(amount, config.protocol_fee_rate),
        fund_fee: fee_amount(amount, config.fund_fee_rate),
        creator_fee: fee_amount(amount, config.creator_fee_rate),
    }
}

/// Gross amount whose net part covers `net`, rounded up in the pool's favor.
/// Returned wide: for adversarial arguments it can exceed the 64-bit range,
/// and the caller compares it to its slippage bound before narrowing.
pub fn gross_amount_for_net(net: u64, config: &AmmConfig) -> (r: u128)
    requires
        config.well_formed(),
        config.spec_total_fee_rate() < FEE_RATE_DENOMINATOR,
    ensures
        r as int == spec_gross_for_net(net as int, config.spec_total_fee_rate()),
        net <= r,
{
    let total_rate = config.total_fee_rate();
    proof {
        lemma_gross_covers_net(net as int, *config);
        assert((net as int) * (FEE_RATE_DENOMINATOR as int)
            <= (0xFFFF_FFFF_FFFF_FFFFu64 as int) * (FEE_RATE_DENOMINATOR as int)) by (nonlinear_arith)
            requires
                0 <= net as int <= 0xFFFF_FFFF_FFFF_FFFFu64 as int,
        ;
    }
    let numerator = (net as u128) * (FEE_RATE_DENOMINATOR as u128);
    let denominator = (FEE_RATE_DENOMINATOR - total_rate) as u128;
    (numerator + denominator - 1) / denominator
}

} // verus!
