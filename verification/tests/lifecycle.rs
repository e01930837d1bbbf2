use raydium_cp_swap::{
    collect_fund_fee, collect_protocol_fee, create_amm_config, create_pool, deposit, initialize,
    swap_base_input, swap_base_output, withdraw, Amm, ErrorCode, PoolState, TradeDirection,
    LOCK_LP_AMOUNT,
};

fn make_pool(reserve_0: u64, reserve_1: u64, lp_supply: u64) -> PoolState {
    PoolState {
        token_0_mint: 1,
        token_1_mint: 2,
        token_0_reserve: reserve_0,
        token_1_reserve: reserve_1,
        lp_supply,
        protocol_fees_0: 0,
        protocol_fees_1: 0,
        fund_fees_0: 0,
        fund_fees_1: 0,
        open_time: 0,
        amm: Amm::new(0, 0, 0, 0),
    }
}

#[test]
fn initialize_million_deposit_locks_floor() {
    let pool = initialize(1, 2, 1_000_000, 1_000_000, 0, 0).unwrap();
    assert_eq!(pool.token_0_reserve, 1_000_000);
    assert_eq!(pool.token_1_reserve, 1_000_000);
    assert_eq!(pool.lp_supply, 1_000_000);
    // the creator receives everything above the locked floor
    assert_eq!(pool.lp_supply - LOCK_LP_AMOUNT, 999_900);
    assert_eq!(pool.protocol_fees_0, 0);
    assert_eq!(pool.protocol_fees_1, 0);
    assert_eq!(pool.fund_fees_0, 0);
    assert_eq!(pool.fund_fees_1, 0);
    // requested opening time lay in the past, so it defaults to the next second
    assert_eq!(pool.open_time, 1);
    // the bootstrap buy consumed the deposit's sol value
    assert_eq!(pool.amm.real_sol_balance, 1_000_000);
    let expected_tokens =
        (1_073_000_000_000_000u128 * 1_000_000) / (30_000_000_000u128 + 1_000_000);
    assert_eq!(
        pool.amm.virtual_token_reserve as u128,
        1_073_000_000_000_000 - expected_tokens
    );
}

#[test]
fn initialize_tiny_deposit_fails_on_locked_floor() {
    let r = initialize(1, 2, 100, 100, 0, 0);
    assert_eq!(r, Err(ErrorCode::InitLpAmountTooLess));
}

#[test]
fn initialize_unordered_pair_rejected() {
    let r = initialize(5, 3, 1_000_000, 1_000_000, 0, 0);
    assert_eq!(r, Err(ErrorCode::InvalidInput));
    let r = initialize(3, 3, 1_000_000, 1_000_000, 0, 0);
    assert_eq!(r, Err(ErrorCode::InvalidInput));
}

#[test]
fn initialize_zero_amount_fails_bootstrap() {
    let r = initialize(1, 2, 0, 1_000_000, 0, 0);
    assert_eq!(r, Err(ErrorCode::BuyResultNone));
}

#[test]
fn initialize_above_sol_ceiling_rescales_deposit() {
    // the sol value 100e9 exceeds the bootstrap ceiling 85e9, so the deposit
    // is rescaled by the cost ratio 85/100
    let pool = initialize(1, 2, 100_000_000_000, 100_000_000_000, 5, 0).unwrap();
    assert_eq!(pool.token_0_reserve, 85_000_000_000);
    assert_eq!(pool.token_1_reserve, 85_000_000_000);
    assert_eq!(pool.lp_supply, 85_000_000_000);
    // a future opening time is kept as requested
    assert_eq!(pool.open_time, 5);
    assert_eq!(pool.amm.real_sol_balance, 85_000_000_000);
}

#[test]
fn deposit_rounds_owed_amounts_up() {
    let mut pool = make_pool(999, 1001, 1000);
    let (amount_0, amount_1) = deposit(&mut pool, 100, u64::MAX, u64::MAX).unwrap();
    assert_eq!(amount_0, 100);
    assert_eq!(amount_1, 101);
    assert_eq!(pool.token_0_reserve, 1099);
    assert_eq!(pool.token_1_reserve, 1102);
    assert_eq!(pool.lp_supply, 1100);
}

#[test]
fn deposit_respects_maximums() {
    let mut pool = make_pool(1_000_000, 2_000_000, 1000);
    let snapshot = pool;
    let r = deposit(&mut pool, 100, 100_000, 199_999);
    assert_eq!(r, Err(ErrorCode::ExceededSlippage));
    assert_eq!(pool, snapshot);
    let r = deposit(&mut pool, 100, 100_000, 200_000);
    assert_eq!(r, Ok((100_000, 200_000)));
}

#[test]
fn deposit_overflow_rejected() {
    let mut pool = make_pool(u64::MAX - 5, 100, 100);
    let snapshot = pool;
    let r = deposit(&mut pool, 100, u64::MAX, u64::MAX);
    assert_eq!(r, Err(ErrorCode::InvalidInput));
    assert_eq!(pool, snapshot);
}

#[test]
fn withdraw_rounds_payout_down() {
    let mut pool = make_pool(999, 1001, 1000);
    let (amount_0, amount_1) = withdraw(&mut pool, 100, 0, 0).unwrap();
    assert_eq!(amount_0, 99);
    assert_eq!(amount_1, 100);
    assert_eq!(pool.token_0_reserve, 900);
    assert_eq!(pool.token_1_reserve, 901);
    assert_eq!(pool.lp_supply, 900);
}

#[test]
fn deposit_then_withdraw_returns_no_more() {
    let mut pool = make_pool(999, 1001, 1000);
    let (deposited_0, deposited_1) = deposit(&mut pool, 100, u64::MAX, u64::MAX).unwrap();
    let (withdrawn_0, withdrawn_1) = withdraw(&mut pool, 100, 0, 0).unwrap();
    assert!(withdrawn_0 <= deposited_0);
    assert!(withdrawn_1 <= deposited_1);
    assert_eq!((withdrawn_0, withdrawn_1), (99, 100));
}

#[test]
fn withdraw_whole_supply_fails() {
    let mut pool = make_pool(1_000_000, 1_000_000, 1000);
    let snapshot = pool;
    let r = withdraw(&mut pool, 1000, 0, 0);
    assert_eq!(r, Err(ErrorCode::InvalidInput));
    assert_eq!(pool, snapshot);
    // even one share above the redeemable part is refused
    let r = withdraw(&mut pool, 901, 0, 0);
    assert_eq!(r, Err(ErrorCode::InvalidInput));
    // everything above the locked floor is redeemable
    let r = withdraw(&mut pool, 900, 0, 0);
    assert_eq!(r, Ok((900_000, 900_000)));
    assert_eq!(pool.lp_supply, 100);
}

#[test]
fn withdraw_zero_payout_rejected() {
    let mut pool = make_pool(5, 1_000_000, 1000);
    let r = withdraw(&mut pool, 100, 0, 0);
    assert_eq!(r, Err(ErrorCode::ZeroTradingTokens));
}

#[test]
fn withdraw_respects_minimums() {
    let mut pool = make_pool(1_000_000, 2_000_000, 1000);
    let r = withdraw(&mut pool, 100, 100_000, 200_001);
    assert_eq!(r, Err(ErrorCode::ExceededSlippage));
    let r = withdraw(&mut pool, 100, 100_000, 200_000);
    assert_eq!(r, Ok((100_000, 200_000)));
}

#[test]
fn create_pool_requires_fresh_system_account() {
    // a fresh account at the derived address needs no signature
    assert_eq!(create_pool(true, 0, true, false), Ok(()));
    // an alternate address is accepted only when it signed for itself
    assert_eq!(create_pool(true, 0, false, true), Ok(()));
    assert_eq!(create_pool(true, 0, false, false), Err(ErrorCode::InvalidInput));
    // a funded or already-owned account is refused outright
    assert_eq!(create_pool(true, 1, true, true), Err(ErrorCode::NotApproved));
    assert_eq!(create_pool(false, 0, true, true), Err(ErrorCode::NotApproved));
}

#[test]
fn collect_protocol_fee_pays_min_of_requested_and_accrued() {
    let mut pool = make_pool(1_000_000, 1_000_000, 1000);
    pool.protocol_fees_0 = 55;
    pool.protocol_fees_1 = 70;
    let (paid_0, paid_1) = collect_protocol_fee(&mut pool, 100, 30);
    assert_eq!((paid_0, paid_1), (55, 30));
    assert_eq!(pool.protocol_fees_0, 0);
    assert_eq!(pool.protocol_fees_1, 40);
    // reserves are untouched by fee collection
    assert_eq!(pool.token_0_reserve, 1_000_000);
}

#[test]
fn full_lifecycle_accounting_stays_consistent() {
    let config = create_amm_config(0, 100, 50, 25, 10, 7).unwrap();
    let mut pool = initialize(10, 20, 2_000_000, 2_000_000, 0, 1_000).unwrap();
    assert_eq!(pool.open_time, 1_001);
    assert_eq!(pool.lp_supply, 2_000_000);
    deposit(&mut pool, 1_000_000, u64::MAX, u64::MAX).unwrap();
    assert_eq!(pool.token_0_reserve, 3_000_000);
    assert_eq!(pool.lp_supply, 3_000_000);
    let out = swap_base_input(&mut pool, &config, TradeDirection::ZeroForOne, 1_001, 50_000, 0)
        .unwrap();
    assert!(out > 0);
    let paid = swap_base_output(
        &mut pool,
        &config,
        TradeDirection::OneForZero,
        2_000,
        u64::MAX,
        10_000,
    )
    .unwrap();
    assert!(paid > 0);
    // each accrual equals its tier's floor share of the gross input
    assert_eq!(pool.protocol_fees_0, 50_000 * 50 / 10_000);
    assert_eq!(pool.protocol_fees_1, paid * 50 / 10_000);
    let collected = collect_protocol_fee(&mut pool, u64::MAX, u64::MAX);
    assert_eq!(collected, (50_000 * 50 / 10_000, paid * 50 / 10_000));
    assert_eq!((pool.protocol_fees_0, pool.protocol_fees_1), (0, 0));
    let collected = collect_fund_fee(&mut pool, u64::MAX, u64::MAX);
    assert_eq!(collected, (50_000 * 25 / 10_000, paid * 25 / 10_000));
    // everything above the locked floor is redeemable, and no more
    let redeemable = pool.lp_supply - LOCK_LP_AMOUNT;
    let (withdrawn_0, withdrawn_1) = withdraw(&mut pool, redeemable, 0, 0).unwrap();
    assert!(withdrawn_0 > 0 && withdrawn_1 > 0);
    assert_eq!(pool.lp_supply, LOCK_LP_AMOUNT);
    assert!(pool.token_0_reserve > 0 && pool.token_1_reserve > 0);
}

#[test]
fn collect_fund_fee_pays_min_of_requested_and_accrued() {
    let mut pool = make_pool(1_000_000, 1_000_000, 1000);
    pool.fund_fees_0 = 8;
    pool.fund_fees_1 = 9;
    let (paid_0, paid_1) = collect_fund_fee(&mut pool, 3, 100);
    assert_eq!((paid_0, paid_1), (3, 9));
    assert_eq!(pool.fund_fees_0, 5);
    assert_eq!(pool.fund_fees_1, 0);
}
