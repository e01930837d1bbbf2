//! Durable records: the shared fee configuration and the per-pool accounting
//! state.

use vstd::prelude::*;

use crate::amm::Amm;
use crate::error::ErrorCode;

verus! {

/// Fee rates are expressed in basis points: parts of this denominator.
pub const FEE_RATE_DENOMINATOR: u64 = 10000;

/// Liquidity shares locked forever at initialization, so the supply can never
/// be drained to zero.
pub const LOCK_LP_AMOUNT: u64 = 100;

/// Shared fee configuration, referenced by many pools: one basis-point rate
/// per fee tier, and the identity allowed to collect the fund tier.
#[derive(Clone, Copy, Debug, PartialEq, Eq, Structural)]
pub struct AmmConfig {
    /// Position of this config among its siblings.
    pub index: u64,
    /// Basis points of each trade left in the reserves for liquidity
    /// providers.
    pub lp_fee_rate: u64,
    /// Basis points of each trade accrued for the protocol.
    pub protocol_fee_rate: u64,
    /// Basis points of each trade accrued for the fund.
    pub fund_fee_rate: u64,
    /// Basis points of each trade paid out to the pool's creator.
    pub creator_fee_rate: u64,
    /// Identity authorized to mutate the config and collect fund fees.
    pub fund_owner: u64,
}

impl AmmConfig {
    /// All four tiers together, in basis points.
    pub open spec fn spec_total_fee_rate(&self) -> int {
        self.lp_fee_rate + self.protocol_fee_rate + self.fund_fee_rate + self.creator_fee_rate
    }

    /// The tiers never claim more than the whole trade.
    pub open spec fn well_formed(&self) -> bool {
        self.spec_total_fee_rate() <= FEE_RATE_DENOMINATOR
    }

    /// All four tiers together, in basis points.
    pub fn total_fee_rate(&self) -> (r: u64)
        requires
            self.well_formed(),
        ensures
            r as int == self.spec_total_fee_rate(),
    {
        self.lp_fee_rate + self.protocol_fee_rate + self.fund_fee_rate + self.creator_fee_rate
    }
}

/// Validates and builds a fee configuration. The four rates must fit in the
/// basis-point denominator together; a config that claims more than the whole
/// trade is rejected.
pub fn create_amm_config(
    index: u64,
    lp_fee_rate: u64,
    protocol_fee_rate: u64,
    fund_fee_rate: u64,
    creator_fee_rate: u64,
    fund_owner: u64,
) -> (r: Result<AmmConfig, ErrorCode>)
    ensures
        r is Ok <==> lp_fee_rate + protocol_fee_rate + fund_fee_rate + creator_fee_rate
            <= FEE_RATE_DENOMINATOR,
        r is Err ==> r == Err::<AmmConfig, ErrorCode>(ErrorCode::InvalidInput),
        r matches Ok(config) ==> config == (AmmConfig {
            index,
            lp_fee_rate,
            protocol_fee_rate,
            fund_fee_rate,
            creator_fee_rate,
            fund_owner,
        }),
        r matches Ok(config) ==> config.well_formed(),
{
    if lp_fee_rate > FEE_RATE_DENOMINATOR
        || protocol_fee_rate > FEE_RATE_DENOMINATOR
        || fund_fee_rate > FEE_RATE_DENOMINATOR
        || creator_fee_rate > FEE_RATE_DENOMINATOR
    {
        return Err(ErrorCode::InvalidInput);
    }
    let total = lp_fee_rate + protocol_fee_rate + fund_fee_rate + creator_fee_rate;
    if total > FEE_RATE_DENOMINATOR {
        return Err(ErrorCode::InvalidInput);
    }
    Ok(AmmConfig { index, lp_fee_rate, protocol_fee_rate, fund_fee_rate, creator_fee_rate, fund_owner })
}

/// The accounting state of one pool: reserves in custody, accrued fees,
/// outstanding liquidity shares, and the inert bonding-curve bootstrap state.
///
/// Identities (mints) are the plain numeric identifiers the host derives;
/// the engine only compares them.
#[derive(Clone, Copy, Debug, PartialEq, Eq, Structural)]
pub struct PoolState {
    /// Identifier of the first token of the pair; always the smaller one.
    pub token_0_mint: u64,
    /// Identifier of the second token of the pair.
    pub token_1_mint: u64,
    /// Custody balance of token 0 participating in the curve.
    pub token_0_reserve: u64,
    /// Custody balance of token 1 participating in the curve.
    pub token_1_reserve: u64,
    /// Outstanding liquidity shares, the locked floor included.
    pub lp_supply: u64,
    /// Accrued, uncollected protocol fees in token 0.
    pub protocol_fees_0: u64,
    /// Accrued, uncollected protocol fees in token 1.
    pub protocol_fees_1: u64,
    /// Accrued, uncollected fund fees in token 0.
    pub fund_fees_0: u64,
    /// Accrued, uncollected fund fees in token 1.
    pub fund_fees_1: u64,
    /// Unix timestamp before which swaps are rejected.
    pub open_time: u64,
    /// Bonding-curve bootstrap state; inert once the pool is active.
    pub amm: Amm,
}

impl PoolState {
    /// What initialization establishes and every operation preserves: the
    /// pair is canonically ordered and the locked share floor is outstanding.
    pub open spec fn well_formed(&self) -> bool {
        &&& self.token_0_mint < self.token_1_mint
        &&& self.lp_supply >= LOCK_LP_AMOUNT
    }

    /// The constant-product invariant's quantity.
    pub open spec fn spec_constant_product(&self) -> int {
        (self.token_0_reserve as int) * (self.token_1_reserve as int)
    }
}

} // verus!
