//! One-time pool bootstrap: prices the first deposit on the bonding curve,
//! rescales the creator's amounts to the implied cost, mints the first
//! liquidity shares and locks the permanent floor.

use vstd::prelude::*;

use crate::amm::{spec_buy_sol_amount, spec_buy_succeeds, spec_buy_token_amount, spec_initial_amm, Amm, DEFAULT_INITIAL_VIRTUAL_SOL_RESERVE, DEFAULT_INITIAL_VIRTUAL_TOKEN_RESERVE, DEFAULT_SOL_BALANCE};
use crate::curve::CurveCalculator;
use crate::error::ErrorCode;
use crate::math::{ceil_div, floor_sqrt, isqrt_u128, lemma_ceil_div_bounds, lemma_ceil_div_vs_mul};
use crate::states::{PoolState, LOCK_LP_AMOUNT};

verus! {

/// Sol value of the requested first deposit: the square root of the product
/// of the two amounts, rounded down.
pub open spec fn spec_init_liquidity(init_amount_0: int, init_amount_1: int) -> int {
    floor_sqrt(init_amount_0 * init_amount_1)
}

/// Sol the bootstrap buy of that value actually consumes.
pub open spec fn spec_init_sol_amount(init_amount_0: int, init_amount_1: int) -> int {
    spec_buy_sol_amount(spec_initial_amm(), spec_init_liquidity(init_amount_0, init_amount_1))
}

/// A requested amount rescaled by the bootstrap's cost ratio, rounded up:
/// the amount actually deposited.
pub open spec fn spec_init_adjusted(init_amount: int, init_amount_0: int, init_amount_1: int) -> int {
    ceil_div(
        init_amount * spec_init_sol_amount(init_amount_0, init_amount_1),
        spec_init_liquidity(init_amount_0, init_amount_1),
    )
}

/// The first liquidity-share supply: the square root of the product of the
/// deposited amounts, rounded down.
pub open spec fn spec_init_lp_supply(init_amount_0: int, init_amount_1: int) -> int {
    floor_sqrt(
        spec_init_adjusted(init_amount_0, init_amount_0, init_amount_1)
            * spec_init_adjusted(init_amount_1, init_amount_0, init_amount_1),
    )
}

/// Swaps open at the requested time, but never before the next second.
pub open spec fn spec_default_open_time(requested: int, block_timestamp: int) -> int {
    if requested <= block_timestamp {
        block_timestamp + 1
    } else {
        requested
    }
}

/// The bootstrap buy of the first deposit's sol value succeeds.
pub open spec fn spec_init_buy_succeeds(init_amount_0: int, init_amount_1: int) -> bool {
    spec_buy_succeeds(spec_initial_amm(), spec_init_liquidity(init_amount_0, init_amount_1))
}

/// The bootstrap curve once the first deposit's buy is applied.
pub open spec fn spec_init_amm_after_buy(init_amount_0: int, init_amount_1: int) -> Amm {
    let liquidity = spec_init_liquidity(init_amount_0, init_amount_1);
    let sol_amount = spec_buy_sol_amount(spec_initial_amm(), liquidity);
    let token_amount = spec_buy_token_amount(spec_initial_amm(), liquidity);
    Amm {
        virtual_token_reserve: (spec_initial_amm().virtual_token_reserve - token_amount) as u64,
        real_sol_balance: sol_amount as u64,
        real_token_balance: (spec_initial_amm().real_token_balance - token_amount) as u64,
        ..spec_initial_amm()
    }
}

/// When the bootstrap buy succeeds, both rescaled deposits are positive: a
/// pool whose first buy went through never fails for empty supply.
pub proof fn lemma_init_deposits_positive(init_amount_0: int, init_amount_1: int)
    requires
        0 <= init_amount_0,
        0 <= init_amount_1,
        spec_init_buy_succeeds(init_amount_0, init_amount_1),
    ensures
        spec_init_adjusted(init_amount_0, init_amount_0, init_amount_1) > 0,
        spec_init_adjusted(init_amount_1, init_amount_0, init_amount_1) > 0,
{
    let product = init_amount_0 * init_amount_1;
    assert(0 <= init_amount_0 * init_amount_1) by (nonlinear_arith)
        requires
            0 <= init_amount_0,
            0 <= init_amount_1,
    ;
    crate::math::lemma_floor_sqrt_exists(product);
    let liquidity = spec_init_liquidity(init_amount_0, init_amount_1);
    let sol_amount = spec_init_sol_amount(init_amount_0, init_amount_1);
    assert(1 <= sol_amount <= liquidity);
    assert(1 <= product) by (nonlinear_arith)
        requires
            1 <= liquidity,
            liquidity * liquidity <= product,
    ;
    assert(1 <= init_amount_0 && 1 <= init_amount_1) by (nonlinear_arith)
        requires
            1 <= init_amount_0 * init_amount_1,
            0 <= init_amount_0,
            0 <= init_amount_1,
    ;
    assert(1 <= init_amount_0 * sol_amount && 1 <= init_amount_1 * sol_amount) by (nonlinear_arith)
        requires
            1 <= init_amount_0,
            1 <= init_amount_1,
            1 <= sol_amount,
    ;
    lemma_ceil_div_vs_mul(init_amount_0 * sol_amount, liquidity, 0);
    lemma_ceil_div_vs_mul(init_amount_1 * sol_amount, liquidity, 0);
}

/// Decides whether a pool may be created at a candidate account. The
/// account must still belong to the system program and hold no funds, and
/// an address other than the deterministically derived one must have signed
/// for itself. Deriving the address and creating the account are custody
/// work and stay with the host.
pub fn create_pool(
    owned_by_system_program: bool,
    lamports: u64,
    is_derived_address: bool,
    is_signer: bool,
) -> (r: Result<(), ErrorCode>)
    ensures
        r is Ok <==> (owned_by_system_program && lamports == 0 && (is_derived_address
            || is_signer)),
        (r == Err::<(), ErrorCode>(ErrorCode::NotApproved)) <==> !(owned_by_system_program
            && lamports == 0),
        (r == Err::<(), ErrorCode>(ErrorCode::InvalidInput)) <==> (owned_by_system_program
            && lamports == 0 && !is_derived_address && !is_signer),
{
    if !owned_by_system_program || lamports != 0 {
        return Err(ErrorCode::NotApproved);
    }
    if !is_derived_address && !is_signer {
        return Err(ErrorCode::InvalidInput);
    }
    Ok(())
}

/// Creates a pool for a canonically ordered token pair. The requested
/// amounts are priced through the bonding curve, rescaled to its cost ratio
/// and deposited; the first share supply is the square root of the deposited
/// product, of which the locked floor never reaches the creator.
pub fn initialize(
    token_0_mint: u64,
    token_1_mint: u64,
    init_amount_0: u64,
    init_amount_1: u64,
    open_time: u64,
    block_timestamp: u64,
) -> (r: Result<PoolState, ErrorCode>)
    requires
        block_timestamp < u64::MAX,
    ensures
        (r == Err::<PoolState, ErrorCode>(ErrorCode::InvalidInput)) <==> token_0_mint
            >= token_1_mint,
        (r == Err::<PoolState, ErrorCode>(ErrorCode::BuyResultNone)) <==> (token_0_mint
            < token_1_mint && !spec_init_buy_succeeds(init_amount_0 as int, init_amount_1 as int)),
        (r == Err::<PoolState, ErrorCode>(ErrorCode::EmptySupply)) <==> (token_0_mint < token_1_mint
            && spec_init_buy_succeeds(init_amount_0 as int, init_amount_1 as int) && (
        spec_init_adjusted(init_amount_0 as int, init_amount_0 as int, init_amount_1 as int) == 0
            || spec_init_adjusted(
            init_amount_1 as int,
            init_amount_0 as int,
            init_amount_1 as int,
        ) == 0)),
        (r == Err::<PoolState, ErrorCode>(ErrorCode::InitLpAmountTooLess)) <==> (token_0_mint
            < token_1_mint && spec_init_buy_succeeds(init_amount_0 as int, init_amount_1 as int)
            && spec_init_adjusted(init_amount_0 as int, init_amount_0 as int, init_amount_1 as int)
            > 0 && spec_init_adjusted(
            init_amount_1 as int,
            init_amount_0 as int,
            init_amount_1 as int,
        ) > 0 && spec_init_lp_supply(init_amount_0 as int, init_amount_1 as int)
            <= LOCK_LP_AMOUNT),
        r is Ok <==> (token_0_mint < token_1_mint && spec_init_buy_succeeds(
            init_amount_0 as int,
            init_amount_1 as int,
        ) && spec_init_adjusted(init_amount_0 as int, init_amount_0 as int, init_amount_1 as int)
            > 0 && spec_init_adjusted(
            init_amount_1 as int,
            init_amount_0 as int,
            init_amount_1 as int,
        ) > 0 && spec_init_lp_supply(init_amount_0 as int, init_amount_1 as int)
            > LOCK_LP_AMOUNT),
        r matches Ok(pool) ==> {
            &&& pool.well_formed()
            &&& pool.token_0_mint == token_0_mint
            &&& pool.token_1_mint == token_1_mint
            &&& pool.token_0_reserve as int == spec_init_adjusted(
                init_amount_0 as int,
                init_amount_0 as int,
                init_amount_1 as int,
            )
            &&& pool.token_1_reserve as int == spec_init_adjusted(
                init_amount_1 as int,
                init_amount_0 as int,
                init_amount_1 as int,
            )
            &&& pool.lp_supply as int == spec_init_lp_supply(init_amount_0 as int, init_amount_1 as int)
            &&& pool.lp_supply > LOCK_LP_AMOUNT
            &&& pool.protocol_fees_0 == 0
            &&& pool.protocol_fees_1 == 0
            &&& pool.fund_fees_0 == 0
            &&& pool.fund_fees_1 == 0
            &&& pool.open_time as int == spec_default_open_time(
                open_time as int,
                block_timestamp as int,
            )
            &&& pool.amm == spec_init_amm_after_buy(init_amount_0 as int, init_amount_1 as int)
        },
{
    if token_0_mint >= token_1_mint {
        return Err(ErrorCode::InvalidInput);
    }
    let open_time = if open_time <= block_timestamp {
        block_timestamp + 1
    } else {
        open_time
    };
    proof {
        assert(0 <= (init_amount_0 as int) * (init_amount_1 as int)
            <= (0xFFFF_FFFF_FFFF_FFFFu64 as int) * (0xFFFF_FFFF_FFFF_FFFFu64 as int)) by (nonlinear_arith)
            requires
                0 <= init_amount_0 as int <= 0xFFFF_FFFF_FFFF_FFFFu64 as int,
                0 <= init_amount_1 as int <= 0xFFFF_FFFF_FFFF_FFFFu64 as int,
        ;
    }
    let liquidity = isqrt_u128((init_amount_0 as u128) * (init_amount_1 as u128));
    let mut amm = Amm::new(
        DEFAULT_INITIAL_VIRTUAL_SOL_RESERVE,
        DEFAULT_INITIAL_VIRTUAL_TOKEN_RESERVE,
        DEFAULT_SOL_BALANCE,
        DEFAULT_INITIAL_VIRTUAL_TOKEN_RESERVE,
    );
    let buy_result = match amm.apply_buy(liquidity) {
        Some(b) => b,
        None => {
            return Err(ErrorCode::BuyResultNone);
        },
    };
    let sol_amount = buy_result.sol_amount;
    proof {
        lemma_init_adjusted_fits(
            init_amount_0 as int,
            sol_amount as int,
            liquidity as int,
            init_amount_0 as int,
            init_amount_1 as int,
        );
        lemma_init_adjusted_fits(
            init_amount_1 as int,
            sol_amount as int,
            liquidity as int,
            init_amount_0 as int,
            init_amount_1 as int,
        );
    }
    let adjusted_0 = (((init_amount_0 as u128) * (sol_amount as u128) + (liquidity as u128) - 1)
        / (liquidity as u128)) as u64;
    let adjusted_1 = (((init_amount_1 as u128) * (sol_amount as u128) + (liquidity as u128) - 1)
        / (liquidity as u128)) as u64;
    if let Err(e) = CurveCalculator::validate_supply(adjusted_0, adjusted_1) {
        return Err(e);
    }
    proof {
        assert(0 <= (adjusted_0 as int) * (adjusted_1 as int)
            <= (0xFFFF_FFFF_FFFF_FFFFu64 as int) * (0xFFFF_FFFF_FFFF_FFFFu64 as int)) by (nonlinear_arith)
            requires
                0 <= adjusted_0 as int <= 0xFFFF_FFFF_FFFF_FFFFu64 as int,
                0 <= adjusted_1 as int <= 0xFFFF_FFFF_FFFF_FFFFu64 as int,
        ;
    }
    let lp_supply = isqrt_u128((adjusted_0 as u128) * (adjusted_1 as u128));
    if lp_supply <= LOCK_LP_AMOUNT {
        return Err(ErrorCode::InitLpAmountTooLess);
    }
    Ok(PoolState {
        token_0_mint,
        token_1_mint,
        token_0_reserve: adjusted_0,
        token_1_reserve: adjusted_1,
        lp_supply,
        protocol_fees_0: 0,
        protocol_fees_1: 0,
        fund_fees_0: 0,
        fund_fees_1: 0,
        open_time,
        amm,
    })
}

/// The rescaled deposit never exceeds the requested amount: the consumed sol
/// is at most the liquidity it paid for.
proof fn lemma_init_adjusted_fits(
    init_amount: int,
    sol_amount: int,
    liquidity: int,
    init_amount_0: int,
    init_amount_1: int,
)
    requires
        0 <= init_amount <= u64::MAX,
        0 < sol_amount <= liquidity <= u64::MAX,
        liquidity == spec_init_liquidity(init_amount_0, init_amount_1),
        sol_amount == spec_init_sol_amount(init_amount_0, init_amount_1),
    ensures
        0 <= init_amount * sol_amount,
        init_amount * sol_amount + liquidity <= u128::MAX,
        ceil_div(init_amount * sol_amount, liquidity) == (init_amount * sol_amount + liquidity
            - 1) / liquidity,
        0 <= ceil_div(init_amount * sol_amount, liquidity) <= init_amount,
        spec_init_adjusted(init_amount, init_amount_0, init_amount_1) == ceil_div(
            init_amount * sol_amount,
            liquidity,
        ),
{
    assert(0 <= init_amount * sol_amount <= (0xFFFF_FFFF_FFFF_FFFFu64 as int)
        * (0xFFFF_FFFF_FFFF_FFFFu64 as int)) by (nonlinear_arith)
        requires
            0 <= init_amount <= 0xFFFF_FFFF_FFFF_FFFFu64 as int,
            0 <= sol_amount <= 0xFFFF_FFFF_FFFF_FFFFu64 as int,
    ;
    lemma_ceil_div_bounds(init_amount * sol_amount, liquidity);
    lemma_ceil_div_vs_mul(init_amount * sol_amount, liquidity, init_amount);
    assert(init_amount * sol_amount <= init_amount * liquidity) by (nonlinear_arith)
        requires
            0 <= init_amount,
            sol_amount <= liquidity,
    ;
}

} // verus!
