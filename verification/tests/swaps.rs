use raydium_cp_swap::{
    create_amm_config, swap_base_input, swap_base_output, Amm, ErrorCode, PoolState,
    TradeDirection,
};

fn zero_fee_config() -> raydium_cp_swap::AmmConfig {
    create_amm_config(0, 0, 0, 0, 0, 7).unwrap()
}

fn make_pool(reserve_0: u64, reserve_1: u64, lp_supply: u64, open_time: u64) -> PoolState {
    PoolState {
        token_0_mint: 1,
        token_1_mint: 2,
        token_0_reserve: reserve_0,
        token_1_reserve: reserve_1,
        lp_supply,
        protocol_fees_0: 0,
        protocol_fees_1: 0,
        fund_fees_0: 0,
        fund_fees_1: 0,
        open_time,
        amm: Amm::new(0, 0, 0, 0),
    }
}

#[test]
fn base_input_zero_fees_million_reserves() {
    let config = zero_fee_config();
    let mut pool = make_pool(1_000_000, 1_000_000, 1_000_000, 0);
    let out = swap_base_input(&mut pool, &config, TradeDirection::ZeroForOne, 1, 1000, 0);
    assert_eq!(out, Ok(999));
    assert_eq!(pool.token_0_reserve, 1_001_000);
    assert_eq!(pool.token_1_reserve, 999_001);
    assert_eq!(pool.protocol_fees_0, 0);
    assert_eq!(pool.fund_fees_0, 0);
}

#[test]
fn base_output_zero_fees_inverse_of_base_input() {
    let config = zero_fee_config();
    let mut pool = make_pool(1_000_000, 1_000_000, 1_000_000, 0);
    let amount_in = swap_base_output(&mut pool, &config, TradeDirection::ZeroForOne, 1, 2000, 999);
    assert_eq!(amount_in, Ok(1000));
    assert!(amount_in.unwrap() <= 1000);
    assert_eq!(pool.token_0_reserve, 1_001_000);
    assert_eq!(pool.token_1_reserve, 999_001);
}

#[test]
fn base_input_takes_lp_fee_into_reserves() {
    let config = create_amm_config(0, 100, 0, 0, 0, 7).unwrap();
    let mut pool = make_pool(1_000_000, 1_000_000, 1_000_000, 0);
    let out = swap_base_input(&mut pool, &config, TradeDirection::ZeroForOne, 1, 1000, 0);
    // fee 10 stays in the pool; the curve prices only the net 990
    assert_eq!(out, Ok(989));
    assert_eq!(pool.token_0_reserve, 1_001_000);
    assert_eq!(pool.token_1_reserve, 999_011);
    assert_eq!(pool.protocol_fees_0, 0);
}

#[test]
fn base_input_accrues_protocol_and_fund_fees() {
    let config = create_amm_config(0, 0, 100, 50, 0, 7).unwrap();
    let mut pool = make_pool(1_000_000, 1_000_000, 1_000_000, 0);
    let out = swap_base_input(&mut pool, &config, TradeDirection::ZeroForOne, 1, 10_000, 0);
    assert_eq!(out, Ok(9753));
    assert_eq!(pool.token_0_reserve, 1_009_850);
    assert_eq!(pool.token_1_reserve, 990_247);
    assert_eq!(pool.protocol_fees_0, 100);
    assert_eq!(pool.fund_fees_0, 50);
    assert_eq!(pool.protocol_fees_1, 0);
    assert_eq!(pool.fund_fees_1, 0);
}

#[test]
fn base_input_product_never_decreases() {
    let config = create_amm_config(0, 30, 20, 10, 5, 7).unwrap();
    let mut pool = make_pool(1_000_000, 3_000_000, 1_000_000, 0);
    let before = (pool.token_0_reserve as u128) * (pool.token_1_reserve as u128);
    swap_base_input(&mut pool, &config, TradeDirection::OneForZero, 1, 12_345, 0).unwrap();
    let after = (pool.token_0_reserve as u128) * (pool.token_1_reserve as u128);
    assert!(after >= before);
}

#[test]
fn base_output_product_never_decreases() {
    let config = create_amm_config(0, 30, 20, 10, 5, 7).unwrap();
    let mut pool = make_pool(1_000_000, 3_000_000, 1_000_000, 0);
    let before = (pool.token_0_reserve as u128) * (pool.token_1_reserve as u128);
    swap_base_output(&mut pool, &config, TradeDirection::ZeroForOne, 1, u64::MAX, 54_321).unwrap();
    let after = (pool.token_0_reserve as u128) * (pool.token_1_reserve as u128);
    assert!(after >= before);
}

#[test]
fn base_output_with_lp_fee_charges_gross() {
    let config = create_amm_config(0, 100, 0, 0, 0, 7).unwrap();
    let mut pool = make_pool(1_000_000, 1_000_000, 1_000_000, 0);
    let amount_in = swap_base_output(&mut pool, &config, TradeDirection::ZeroForOne, 1, 2000, 989);
    assert_eq!(amount_in, Ok(1000));
    assert_eq!(pool.token_0_reserve, 1_001_000);
    assert_eq!(pool.token_1_reserve, 999_011);
}

#[test]
fn round_trip_same_reserves_never_favors_trader() {
    // the output of a base-input swap, quoted back in base-output mode on the
    // same reserves, never costs more than the original input
    let config = zero_fee_config();
    for (r0, r1, a) in [
        (1_000_000u64, 1_000_000u64, 1000u64),
        (123_456, 999_999_999, 54_321),
        (7, 1_000_000_000_000, 3),
        (1_000_000_000_000, 7, 1_000_000),
    ] {
        let mut pool = make_pool(r0, r1, 1_000_000, 0);
        let out = match swap_base_input(&mut pool, &config, TradeDirection::ZeroForOne, 1, a, 0) {
            Ok(out) => out,
            Err(e) => {
                assert_eq!(e, ErrorCode::ZeroTradingTokens);
                continue;
            }
        };
        let mut fresh = make_pool(r0, r1, 1_000_000, 0);
        let back =
            swap_base_output(&mut fresh, &config, TradeDirection::ZeroForOne, 1, u64::MAX, out)
                .unwrap();
        assert!(back <= a, "paid {back} to buy back {out} after paying {a}");
    }
}

#[test]
fn swap_before_open_time_fails_without_mutation() {
    let config = zero_fee_config();
    let mut pool = make_pool(1_000_000, 1_000_000, 1_000_000, 100);
    let snapshot = pool;
    let r = swap_base_input(&mut pool, &config, TradeDirection::ZeroForOne, 99, 1000, 0);
    assert_eq!(r, Err(ErrorCode::NotApproved));
    assert_eq!(pool, snapshot);
    let r = swap_base_output(&mut pool, &config, TradeDirection::ZeroForOne, 99, 2000, 999);
    assert_eq!(r, Err(ErrorCode::NotApproved));
    assert_eq!(pool, snapshot);
    // at the opening time itself the pool trades
    let r = swap_base_input(&mut pool, &config, TradeDirection::ZeroForOne, 100, 1000, 0);
    assert_eq!(r, Ok(999));
}

#[test]
fn swap_on_empty_reserve_fails() {
    let config = zero_fee_config();
    let mut pool = make_pool(0, 1_000_000, 1_000_000, 0);
    let r = swap_base_input(&mut pool, &config, TradeDirection::ZeroForOne, 1, 1000, 0);
    assert_eq!(r, Err(ErrorCode::EmptySupply));
    let r = swap_base_output(&mut pool, &config, TradeDirection::OneForZero, 1, 2000, 10);
    assert_eq!(r, Err(ErrorCode::EmptySupply));
}

#[test]
fn base_input_zero_output_rejected() {
    let config = zero_fee_config();
    let mut pool = make_pool(1_000_000, 1_000_000, 1_000_000, 0);
    let r = swap_base_input(&mut pool, &config, TradeDirection::ZeroForOne, 1, 0, 0);
    assert_eq!(r, Err(ErrorCode::ZeroTradingTokens));
    assert_eq!(pool.token_0_reserve, 1_000_000);
}

#[test]
fn base_output_degenerate_amounts_rejected() {
    let config = zero_fee_config();
    let mut pool = make_pool(1_000_000, 1_000_000, 1_000_000, 0);
    let r = swap_base_output(&mut pool, &config, TradeDirection::ZeroForOne, 1, 2000, 0);
    assert_eq!(r, Err(ErrorCode::ZeroTradingTokens));
    // asking for the whole output reserve would drain the pool
    let r = swap_base_output(&mut pool, &config, TradeDirection::ZeroForOne, 1, u64::MAX, 1_000_000);
    assert_eq!(r, Err(ErrorCode::ZeroTradingTokens));
}

#[test]
fn base_input_slippage_bound_respected() {
    let config = zero_fee_config();
    let mut pool = make_pool(1_000_000, 1_000_000, 1_000_000, 0);
    let snapshot = pool;
    let r = swap_base_input(&mut pool, &config, TradeDirection::ZeroForOne, 1, 1000, 1000);
    assert_eq!(r, Err(ErrorCode::ExceededSlippage));
    assert_eq!(pool, snapshot);
}

#[test]
fn base_output_slippage_bound_respected() {
    let config = zero_fee_config();
    let mut pool = make_pool(1_000_000, 1_000_000, 1_000_000, 0);
    let snapshot = pool;
    let r = swap_base_output(&mut pool, &config, TradeDirection::ZeroForOne, 1, 999, 999);
    assert_eq!(r, Err(ErrorCode::ExceededSlippage));
    assert_eq!(pool, snapshot);
}

#[test]
fn base_input_reserve_overflow_rejected() {
    let config = zero_fee_config();
    let mut pool = make_pool(u64::MAX - 5, u64::MAX - 5, 1_000_000, 0);
    let snapshot = pool;
    let r = swap_base_input(&mut pool, &config, TradeDirection::ZeroForOne, 1, 1000, 0);
    assert_eq!(r, Err(ErrorCode::InvalidInput));
    assert_eq!(pool, snapshot);
}

#[test]
fn one_for_zero_direction_mirrors_sides() {
    let config = create_amm_config(0, 0, 100, 0, 0, 7).unwrap();
    let mut pool = make_pool(1_000_000, 1_000_000, 1_000_000, 0);
    let out = swap_base_input(&mut pool, &config, TradeDirection::OneForZero, 1, 10_000, 0);
    assert!(out.is_ok());
    // fees of a one-for-zero trade accrue on the token 1 side
    assert_eq!(pool.protocol_fees_1, 100);
    assert_eq!(pool.protocol_fees_0, 0);
    assert!(pool.token_1_reserve > 1_000_000);
    assert!(pool.token_0_reserve < 1_000_000);
}
