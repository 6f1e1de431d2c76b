use mempool_vortex::addr::Address;
use mempool_vortex::bundler::{
    calculate_optimal_gas_price, calculate_optimal_swap_amount, create_arbitrage_bundle,
    create_liquidation_bundle, create_sandwich_bundle, generate_bundle_id, get_relay_configs,
    validate_bundle, BuildError, MEVBundle, TransactionRequest, ValidationError,
};
use mempool_vortex::searcher::{MEVOpportunity, Protocol, DEX};
use mempool_vortex::uint256::U256;

fn wei(x: u128) -> U256 {
    U256::from_u128(x)
}

fn arb_opportunity(buy: DEX, sell: DEX) -> MEVOpportunity {
    MEVOpportunity::Arbitrage {
        token_a: Address::from_low_u64_be(0xa),
        token_b: Address::from_low_u64_be(0xb),
        buy_dex: buy,
        sell_dex: sell,
        profit_eth: wei(3_000_000_000_000_000_000),
        gas_cost_eth: wei(6_000_000_000_000_000),
        net_profit_eth: wei(2_994_000_000_000_000_000),
    }
}

fn sandwich_opportunity() -> MEVOpportunity {
    MEVOpportunity::Sandwich {
        _victim_tx_hash: U256::from_u128(0x5ee),
        token_in: Address::from_low_u64_be(0xa),
        token_out: Address::from_low_u64_be(0xb),
        victim_amount_in: wei(6_000_000_000_000_000_000),
        frontrun_amount: wei(600_000_000_000_000_000),
        backrun_amount: wei(630_000_000_000_000_000),
        estimated_profit_eth: wei(3_000_000_000_000_000),
        gas_cost_eth: wei(400_000_000_000_000),
    }
}

fn liquidation_opportunity(protocol: Protocol) -> MEVOpportunity {
    MEVOpportunity::Liquidation {
        protocol,
        position_owner: Address::from_low_u64_be(0x10),
        collateral_token: Address::from_low_u64_be(0x20),
        debt_token: Address::from_low_u64_be(0x30),
        collateral_amount: wei(1_000_000_000_000_000_000),
        debt_amount: wei(400_000_000_000_000_000),
        liquidation_bonus_eth: wei(50_000_000_000_000_000),
        health_factor_milli: 900,
    }
}

fn selector(leg: &TransactionRequest) -> [u8; 4] {
    let data = leg.data.as_ref().expect("leg carries calldata");
    [data[0], data[1], data[2], data[3]]
}

#[test]
fn arbitrage_bundle_has_two_swap_legs() {
    let bundle = create_arbitrage_bundle(arb_opportunity(DEX::UniswapV3, DEX::SushiSwap)).unwrap();
    assert_eq!(bundle.transactions.len(), 2);
    assert_eq!(bundle.target_block, 18_500_001);
    assert!(bundle.min_timestamp.is_none() && bundle.max_timestamp.is_none());
    assert_eq!(bundle.total_gas, wei(400_000));
    assert_eq!(bundle.expected_profit, wei(2_994_000_000_000_000_000));
    assert!(bundle.bundle_id.starts_with("bundle_"));
    // The buy leg goes to the concentrated-liquidity router, the sell leg
    // to the second constant-product router.
    assert_eq!(bundle.transactions[0].to, Some(mempool_vortex::addr::uniswap_v3_router()));
    assert_eq!(bundle.transactions[1].to, Some(mempool_vortex::addr::sushiswap_router()));
    assert_eq!(selector(&bundle.transactions[0]), [0x41, 0x4b, 0xf3, 0x89]);
    assert_eq!(selector(&bundle.transactions[1]), [0x38, 0xed, 0x17, 0x39]);
    for leg in &bundle.transactions {
        assert_eq!(leg.gas, Some(wei(200_000)));
        assert_eq!(leg.gas_price, Some(wei(25_000_000_000)));
        assert_eq!(leg.value, None);
    }
}

#[test]
fn arbitrage_leg_amount_is_tenth_of_profit() {
    let bundle = create_arbitrage_bundle(arb_opportunity(DEX::UniswapV2, DEX::SushiSwap)).unwrap();
    let data = bundle.transactions[0].data.as_ref().unwrap();
    // Bytes 4..36 carry the 32-byte big-endian notional: profit / 10.
    let amount = U256::from_be_slice(data, 4);
    assert_eq!(amount, wei(300_000_000_000_000_000));
}

#[test]
fn arbitrage_bundle_rejects_unroutable_venue() {
    assert_eq!(
        create_arbitrage_bundle(arb_opportunity(DEX::Balancer, DEX::SushiSwap)).unwrap_err(),
        BuildError::UnsupportedVenue
    );
    assert_eq!(
        create_arbitrage_bundle(arb_opportunity(DEX::UniswapV2, DEX::PancakeSwap)).unwrap_err(),
        BuildError::UnsupportedVenue
    );
}

#[test]
fn arbitrage_bundle_rejects_other_variants() {
    assert_eq!(
        create_arbitrage_bundle(sandwich_opportunity()).unwrap_err(),
        BuildError::InvalidOpportunityShape
    );
}

#[test]
fn sandwich_bundle_has_frontrun_then_backrun() {
    let bundle = create_sandwich_bundle(sandwich_opportunity()).unwrap();
    assert_eq!(bundle.transactions.len(), 2);
    assert_eq!(bundle.total_gas, wei(500_000));
    assert_eq!(bundle.expected_profit, wei(3_000_000_000_000_000));
    // Both legs swap on the primary venue; the victim sits between them by
    // relay ordering, never built here.
    for leg in &bundle.transactions {
        assert_eq!(leg.to, Some(mempool_vortex::addr::uniswap_v2_router()));
    }
    let frontrun = U256::from_be_slice(bundle.transactions[0].data.as_ref().unwrap(), 4);
    let backrun = U256::from_be_slice(bundle.transactions[1].data.as_ref().unwrap(), 4);
    assert_eq!(frontrun, wei(600_000_000_000_000_000));
    assert_eq!(backrun, wei(630_000_000_000_000_000));
}

#[test]
fn sandwich_bundle_rejects_other_variants() {
    assert_eq!(
        create_sandwich_bundle(liquidation_opportunity(Protocol::Aave)).unwrap_err(),
        BuildError::InvalidOpportunityShape
    );
}

#[test]
fn liquidation_bundle_orders_flash_loan_liquidate_repay() {
    let bundle = create_liquidation_bundle(liquidation_opportunity(Protocol::Aave)).unwrap();
    assert_eq!(bundle.transactions.len(), 3);
    assert_eq!(bundle.total_gas, wei(600_000));
    assert_eq!(bundle.expected_profit, wei(50_000_000_000_000_000));
    // Fixed order: draw the loan, liquidate, repay.
    assert_eq!(selector(&bundle.transactions[0]), [0xab, 0x9c, 0x4b, 0x5d]);
    assert_eq!(selector(&bundle.transactions[1]), [0x00, 0xa7, 0x18, 0xa9]);
    assert_eq!(selector(&bundle.transactions[2]), [0xa9, 0x05, 0x9c, 0xbb]);
    assert_eq!(bundle.transactions[0].to, Some(mempool_vortex::addr::aave_pool()));
    assert_eq!(bundle.transactions[1].to, Some(mempool_vortex::addr::aave_pool()));
    // Repayment is a transfer on the debt token itself.
    assert_eq!(bundle.transactions[2].to, Some(Address::from_low_u64_be(0x30)));
    assert_eq!(bundle.transactions[0].gas, Some(wei(300_000)));
    assert_eq!(bundle.transactions[1].gas, Some(wei(400_000)));
    assert_eq!(bundle.transactions[2].gas, Some(wei(100_000)));
}

#[test]
fn liquidation_bundle_routes_compound_to_comptroller() {
    let bundle = create_liquidation_bundle(liquidation_opportunity(Protocol::Compound)).unwrap();
    assert_eq!(selector(&bundle.transactions[1]), [0xf5, 0xe3, 0xc4, 0x62]);
    assert_eq!(bundle.transactions[1].to, Some(mempool_vortex::addr::compound_comptroller()));
}

#[test]
fn liquidation_bundle_rejects_unroutable_protocol() {
    assert_eq!(
        create_liquidation_bundle(liquidation_opportunity(Protocol::MakerDAO)).unwrap_err(),
        BuildError::UnsupportedProtocol
    );
    assert_eq!(
        create_liquidation_bundle(liquidation_opportunity(Protocol::Euler)).unwrap_err(),
        BuildError::UnsupportedProtocol
    );
}

fn leg_with_gas(gas: u128) -> TransactionRequest {
    TransactionRequest {
        to: Some(Address::from_low_u64_be(1)),
        data: Some(vec![0u8; 4]),
        gas: Some(wei(gas)),
        gas_price: Some(wei(25_000_000_000)),
        value: None,
    }
}

fn bundle_with(legs: Vec<TransactionRequest>, profit: u128) -> MEVBundle {
    MEVBundle {
        transactions: legs,
        target_block: 18_500_001,
        min_timestamp: None,
        max_timestamp: None,
        bundle_id: generate_bundle_id(),
        total_gas: wei(400_000),
        expected_profit: wei(profit),
    }
}

#[test]
fn validation_rejects_empty_bundles() {
    let bundle = bundle_with(Vec::new(), 1);
    assert_eq!(validate_bundle(&bundle).unwrap_err(), ValidationError::EmptyBundle);
}

#[test]
fn validation_rejects_zero_profit() {
    let bundle = bundle_with(vec![leg_with_gas(100_000)], 0);
    assert_eq!(validate_bundle(&bundle).unwrap_err(), ValidationError::NonPositiveProfit);
}

#[test]
fn validation_rejects_gas_above_block_limit() {
    // 7M + 7M exceeds the 12M ceiling.
    let bundle = bundle_with(vec![leg_with_gas(7_000_000), leg_with_gas(7_000_000)], 1);
    assert_eq!(validate_bundle(&bundle).unwrap_err(), ValidationError::GasLimitExceeded);
}

#[test]
fn validation_accepts_a_sound_bundle() {
    let bundle = bundle_with(vec![leg_with_gas(6_000_000), leg_with_gas(6_000_000)], 1);
    assert!(validate_bundle(&bundle).is_ok());
}

#[test]
fn gas_price_is_base_plus_priority() {
    assert_eq!(calculate_optimal_gas_price(18_500_001), wei(25_000_000_000));
}

#[test]
fn swap_amount_is_tenth_of_profit() {
    let amount = calculate_optimal_swap_amount(&arb_opportunity(DEX::UniswapV2, DEX::SushiSwap));
    assert_eq!(amount, wei(300_000_000_000_000_000));
    // Other variants fall back to one native unit.
    let fallback = calculate_optimal_swap_amount(&sandwich_opportunity());
    assert_eq!(fallback, wei(1_000_000_000_000_000_000));
}

#[test]
fn bundle_ids_carry_prefix_and_digits() {
    let id = generate_bundle_id();
    assert!(id.starts_with("bundle_"));
    assert!(id.len() > "bundle_".len());
    assert!(id["bundle_".len()..].chars().all(|c| c.is_ascii_digit()));
}

#[test]
fn builtin_relay_roster_matches_priorities() {
    let relays = get_relay_configs();
    assert_eq!(relays.len(), 3);
    assert_eq!(relays[0].name, "flashbots");
    assert_eq!(relays[0].endpoint, "https://relay.flashbots.net");
    assert!(relays[0].enabled);
    assert_eq!(relays[1].name, "bloXroute");
    assert!(relays[1].enabled);
    assert_eq!(relays[2].name, "eden");
    assert!(!relays[2].enabled);
    assert!(relays.iter().all(|r| r.signing_key.is_none()));
}
