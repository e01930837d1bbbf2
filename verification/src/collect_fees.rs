//! Paying out accrued protocol and fund fees.

use vstd::prelude::*;

use crate::states::PoolState;

verus! {

/// Pays out up to the requested amount of accrued protocol fees per side,
/// never more than what has accrued, and zeroes the paid portion.
pub fn collect_protocol_fee(
    pool: &mut PoolState,
    amount_0_requested: u64,
    amount_1_requested: u64,
) -> (r: (u64, u64))
    requires
        old(pool).well_formed(),
    ensures
        final(pool).well_formed(),
        r.0 == if amount_0_requested <= old(pool).protocol_fees_0 {
            amount_0_requested
        } else {
            old(pool).protocol_fees_0
        },
        r.1 == if amount_1_requested <= old(pool).protocol_fees_1 {
            amount_1_requested
        } else {
            old(pool).protocol_fees_1
        },
        *final(pool) == (PoolState {
            protocol_fees_0: (old(pool).protocol_fees_0 - r.0) as u64,
            protocol_fees_1: (old(pool).protocol_fees_1 - r.1) as u64,
            ..*old(pool)
        }),
{
    let amount_0 = if amount_0_requested <= pool.protocol_fees_0 {
        amount_0_requested
    } else {
        pool.protocol_fees_0
    };
    let amount_1 = if amount_1_requested <= pool.protocol_fees_1 {
        amount_1_requested
    } else {
        pool.protocol_fees_1
    };
    pool.protocol_fees_0 = pool.protocol_fees_0 - amount_0;
    pool.protocol_fees_1 = pool.protocol_fees_1 - amount_1;
    (amount_0, amount_1)
}

/// Pays out up to the requested amount of accrued fund fees per side, never
/// more than what has accrued, and zeroes the paid portion.
pub fn collect_fund_fee(
    pool: &mut PoolState,
    amount_0_requested: u64,
    amount_1_requested: u64,
) -> (r: (u64, u64))
    requires
        old(pool).well_formed(),
    ensures
        final(pool).well_formed(),
        r.0 == if amount_0_requested <= old(pool).fund_fees_0 {
            amount_0_requested
        } else {
            old(pool).fund_fees_0
        },
        r.1 == if amount_1_requested <= old(pool).fund_fees_1 {
            amount_1_requested
        } else {
            old(pool).fund_fees_1
        },
        *final(pool) == (PoolState {
            fund_fees_0: (old(pool).fund_fees_0 - r.0) as u64,
            fund_fees_1: (old(pool).fund_fees_1 - r.1) as u64,
            ..*old(pool)
        }),
{
    let amount_0 = if amount_0_requested <= pool.fund_fees_0 {
        amount_0_requested
    } else {
        pool.fund_fees_0
    };
    let amount_1 = if amount_1_requested <= pool.fund_fees_1 {
        amount_1_requested
    } else {
        pool.fund_fees_1
    };
    pool.fund_fees_0 = pool.fund_fees_0 - amount_0;
    pool.fund_fees_1 = pool.fund_fees_1 - amount_1;
    (amount_0, amount_1)
}

} // verus!
