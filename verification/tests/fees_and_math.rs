use raydium_cp_swap::{
    create_amm_config, fee_amount, gross_amount_for_net, isqrt_u128, split_fees, Amm, ErrorCode,
    FEE_RATE_DENOMINATOR,
};

#[test]
fn isqrt_exact_values() {
    assert_eq!(isqrt_u128(0), 0);
    assert_eq!(isqrt_u128(1), 1);
    assert_eq!(isqrt_u128(3), 1);
    assert_eq!(isqrt_u128(4), 2);
    assert_eq!(isqrt_u128(999_999), 999);
    assert_eq!(isqrt_u128(1_000_000_000_000), 1_000_000);
    assert_eq!(isqrt_u128(u128::MAX), u64::MAX);
    assert_eq!(isqrt_u128((u64::MAX as u128) * (u64::MAX as u128)), u64::MAX);
}

#[test]
fn fee_amount_rounds_down() {
    assert_eq!(fee_amount(10_000, 25), 25);
    assert_eq!(fee_amount(9_999, 25), 24);
    assert_eq!(fee_amount(10_000, 0), 0);
    assert_eq!(fee_amount(10_000, FEE_RATE_DENOMINATOR), 10_000);
    assert_eq!(fee_amount(3, 9_999), 2);
}

#[test]
fn split_fees_each_tier_independent() {
    let config = create_amm_config(0, 25, 10, 5, 3, 7).unwrap();
    let fees = split_fees(10_000, &config);
    assert_eq!(fees.lp_fee, 25);
    assert_eq!(fees.protocol_fee, 10);
    assert_eq!(fees.fund_fee, 5);
    assert_eq!(fees.creator_fee, 3);
    // each tier floors independently: on 9999 every tier loses its fraction
    let fees = split_fees(9_999, &config);
    assert_eq!(fees.lp_fee, 24);
    assert_eq!(fees.protocol_fee, 9);
    assert_eq!(fees.fund_fee, 4);
    assert_eq!(fees.creator_fee, 2);
}

#[test]
fn gross_amount_covers_required_net() {
    let config = create_amm_config(0, 100, 0, 0, 0, 7).unwrap();
    assert_eq!(gross_amount_for_net(990, &config), 1000);
    let config = create_amm_config(0, 0, 0, 0, 0, 7).unwrap();
    assert_eq!(gross_amount_for_net(990, &config), 990);
    // the gross amount's own net part covers the requirement
    let config = create_amm_config(0, 33, 17, 9, 1, 7).unwrap();
    for net in [1u64, 999, 12_345, 1_000_000_007] {
        let gross = gross_amount_for_net(net, &config) as u64;
        let fees = split_fees(gross, &config);
        let net_of_gross =
            gross - fees.lp_fee - fees.protocol_fee - fees.fund_fee - fees.creator_fee;
        assert!(net_of_gross >= net);
    }
}

#[test]
fn config_rates_must_fit_denominator() {
    let config = create_amm_config(3, 5000, 4000, 999, 1, 42).unwrap();
    assert_eq!(config.index, 3);
    assert_eq!(config.lp_fee_rate, 5000);
    assert_eq!(config.protocol_fee_rate, 4000);
    assert_eq!(config.fund_fee_rate, 999);
    assert_eq!(config.creator_fee_rate, 1);
    assert_eq!(config.fund_owner, 42);
    assert_eq!(create_amm_config(3, 5000, 4000, 999, 2, 42), Err(ErrorCode::InvalidInput));
    assert_eq!(create_amm_config(0, 10_001, 0, 0, 0, 42), Err(ErrorCode::InvalidInput));
}

#[test]
fn bootstrap_buy_prices_against_virtual_reserves() {
    let mut amm = Amm::new(30_000_000_000, 1_073_000_000_000_000, 85_000_000_000, 1_073_000_000_000_000);
    let result = amm.apply_buy(1_000_000).unwrap();
    assert_eq!(result.sol_amount, 1_000_000);
    let expected_tokens =
        (1_073_000_000_000_000u128 * 1_000_000) / (30_000_000_000u128 + 1_000_000);
    assert_eq!(result.token_amount as u128, expected_tokens);
    assert_eq!(amm.real_sol_balance, 1_000_000);
    assert_eq!(amm.virtual_token_reserve as u128, 1_073_000_000_000_000 - expected_tokens);
    assert_eq!(amm.real_token_balance as u128, 1_073_000_000_000_000 - expected_tokens);
    assert_eq!(amm.virtual_sol_reserve, 30_000_000_000);
}

#[test]
fn bootstrap_buy_clamps_to_sol_ceiling() {
    let mut amm = Amm::new(30_000_000_000, 1_073_000_000_000_000, 85_000_000_000, 1_073_000_000_000_000);
    let result = amm.apply_buy(200_000_000_000).unwrap();
    assert_eq!(result.sol_amount, 85_000_000_000);
    assert_eq!(amm.real_sol_balance, 85_000_000_000);
    // the curve is full: no further buy goes through
    assert_eq!(amm.apply_buy(1), None);
}

#[test]
fn bootstrap_buy_of_nothing_fails() {
    let mut amm = Amm::new(30_000_000_000, 1_073_000_000_000_000, 85_000_000_000, 1_073_000_000_000_000);
    assert_eq!(amm.apply_buy(0), None);
}

#[test]
fn bootstrap_sell_pays_from_real_sol() {
    let mut amm = Amm::new(30_000_000_000, 1_073_000_000_000_000, 85_000_000_000, 1_073_000_000_000_000);
    // an empty curve holds no sol to pay out
    assert_eq!(amm.apply_sell(1_000), None);
    amm.apply_buy(1_000_000).unwrap();
    let virtual_tokens = amm.virtual_token_reserve;
    let real_tokens = amm.real_token_balance;
    let result = amm.apply_sell(1_000_000_000).unwrap();
    assert_eq!(result.token_amount, 1_000_000_000);
    let expected_sol = ((30_000_000_000u128 + 1_000_000) * 1_000_000_000)
        / (virtual_tokens as u128 + 1_000_000_000);
    assert_eq!(result.sol_amount as u128, expected_sol);
    assert_eq!(amm.real_sol_balance as u128, 1_000_000 - expected_sol);
    assert_eq!(amm.virtual_token_reserve, virtual_tokens + 1_000_000_000);
    assert_eq!(amm.real_token_balance, real_tokens + 1_000_000_000);
}
