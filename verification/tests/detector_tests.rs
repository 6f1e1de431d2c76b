use mempool_vortex::addr::Address;
use mempool_vortex::searcher::{
    arbitrage_from_prices, calculate_net_profit, detect_liquidation_opportunity,
    detect_sandwich_opportunity, evaluate_opportunity, liquidation_from_positions,
    select_best_opportunity, LendingPosition, MEVOpportunity, PendingTransaction, Protocol,
    TxType, DEX,
};
use mempool_vortex::uint256::U256;

fn wei(x: u128) -> U256 {
    U256::from_u128(x)
}

fn tokens() -> (Address, Address) {
    (Address::from_low_u64_be(0xaaa), Address::from_low_u64_be(0xbbb))
}

#[test]
fn arbitrage_ignores_small_swaps_whatever_the_prices() {
    // Below one native unit the strategy yields nothing, even for a huge gap.
    let (a, b) = tokens();
    let prices = vec![(DEX::UniswapV2, wei(1)), (DEX::SushiSwap, wei(1_000_000_000))];
    let amount = wei(999_999_999_999_999_999);
    assert!(arbitrage_from_prices(a, b, amount, &prices, wei(0)).is_none());
}

#[test]
fn arbitrage_buys_minimum_and_sells_maximum() {
    let (a, b) = tokens();
    let prices = vec![
        (DEX::UniswapV2, wei(1000)),
        (DEX::SushiSwap, wei(1002)),
        (DEX::UniswapV3, wei(999)),
    ];
    let amount = wei(2_000_000_000_000_000_000);
    match arbitrage_from_prices(a, b, amount, &prices, wei(2)) {
        Some(MEVOpportunity::Arbitrage {
            token_a,
            token_b,
            buy_dex,
            sell_dex,
            profit_eth,
            gas_cost_eth,
            net_profit_eth,
        }) => {
            assert_eq!(token_a, a);
            assert_eq!(token_b, b);
            assert!(matches!(buy_dex, DEX::UniswapV3));
            assert!(matches!(sell_dex, DEX::SushiSwap));
            assert_eq!(profit_eth, wei(3));
            assert_eq!(gas_cost_eth, wei(2));
            assert_eq!(net_profit_eth, wei(1));
        }
        other => panic!("expected an arbitrage, got {:?}", other),
    }
}

#[test]
fn arbitrage_needs_gap_above_gas() {
    // The same prices with a gas estimate of 4 swallow the gap of 3.
    let (a, b) = tokens();
    let prices = vec![
        (DEX::UniswapV2, wei(1000)),
        (DEX::SushiSwap, wei(1002)),
        (DEX::UniswapV3, wei(999)),
    ];
    let amount = wei(2_000_000_000_000_000_000);
    assert!(arbitrage_from_prices(a, b, amount, &prices, wei(4)).is_none());
}

#[test]
fn arbitrage_equal_prices_yield_nothing() {
    let (a, b) = tokens();
    let prices = vec![
        (DEX::UniswapV2, wei(1000)),
        (DEX::SushiSwap, wei(1000)),
        (DEX::UniswapV3, wei(1000)),
    ];
    let amount = wei(2_000_000_000_000_000_000);
    assert!(arbitrage_from_prices(a, b, amount, &prices, wei(0)).is_none());
}

#[test]
fn arbitrage_tie_breaks_to_first_venue() {
    let (a, b) = tokens();
    let prices = vec![
        (DEX::UniswapV2, wei(500)),
        (DEX::SushiSwap, wei(500)),
        (DEX::UniswapV3, wei(900)),
        (DEX::Balancer, wei(900)),
    ];
    let amount = wei(2_000_000_000_000_000_000);
    match arbitrage_from_prices(a, b, amount, &prices, wei(10)) {
        Some(MEVOpportunity::Arbitrage { buy_dex, sell_dex, .. }) => {
            assert!(matches!(buy_dex, DEX::UniswapV2));
            assert!(matches!(sell_dex, DEX::UniswapV3));
        }
        other => panic!("expected an arbitrage, got {:?}", other),
    }
}

fn swap_tx(amount: U256, gas_price: Option<U256>) -> (PendingTransaction, TxType) {
    let (a, b) = tokens();
    let tx = PendingTransaction {
        hash: U256::from_u128(0x5ee),
        from: Address::from_low_u64_be(0xcc),
        to: Some(Address::from_low_u64_be(0xdd)),
        value: U256::zero(),
        gas_price,
        input: Vec::new(),
    };
    let t = TxType::UniswapV2Swap { token_in: a, token_out: b, amount_in: amount };
    (tx, t)
}

#[test]
fn sandwich_sizes_frontrun_and_backrun_exactly() {
    // 6e18 + 7 wei: the frontrun is the integer tenth, the backrun 105%.
    let (tx, t) = swap_tx(wei(6_000_000_000_000_000_007), Some(wei(1_000_000_000)));
    match detect_sandwich_opportunity(&tx, &t) {
        Some(MEVOpportunity::Sandwich {
            _victim_tx_hash,
            victim_amount_in,
            frontrun_amount,
            backrun_amount,
            estimated_profit_eth,
            gas_cost_eth,
            ..
        }) => {
            assert_eq!(_victim_tx_hash, U256::from_u128(0x5ee));
            assert_eq!(victim_amount_in, wei(6_000_000_000_000_000_007));
            assert_eq!(frontrun_amount, wei(600_000_000_000_000_000));
            assert_eq!(backrun_amount, wei(630_000_000_000_000_000));
            assert_eq!(estimated_profit_eth, wei(3_000_000_000_000_000));
            assert_eq!(gas_cost_eth, wei(400_000_000_000_000));
        }
        other => panic!("expected a sandwich, got {:?}", other),
    }
}

#[test]
fn sandwich_ignores_small_swaps() {
    let (tx, t) = swap_tx(wei(4_999_999_999_999_999_999), Some(wei(1_000_000_000)));
    assert!(detect_sandwich_opportunity(&tx, &t).is_none());
}

#[test]
fn sandwich_rejects_high_gas_victims() {
    // 51 gwei exceeds the 50 gwei ceiling.
    let (tx, t) = swap_tx(wei(6_000_000_000_000_000_000), Some(wei(51_000_000_000)));
    assert!(detect_sandwich_opportunity(&tx, &t).is_none());
}

#[test]
fn sandwich_treats_missing_gas_price_as_zero() {
    let (tx, t) = swap_tx(wei(6_000_000_000_000_000_000), None);
    match detect_sandwich_opportunity(&tx, &t) {
        Some(MEVOpportunity::Sandwich { gas_cost_eth, .. }) => {
            assert_eq!(gas_cost_eth, wei(0));
        }
        other => panic!("expected a sandwich, got {:?}", other),
    }
}

fn position(health_milli: u64, collateral: u128) -> LendingPosition {
    LendingPosition {
        protocol: Protocol::Aave,
        owner: Address::from_low_u64_be(0x10),
        collateral_token: Address::from_low_u64_be(0x20),
        debt_token: Address::from_low_u64_be(0x30),
        collateral_amount: wei(collateral),
        debt_amount: wei(1),
        health_factor_milli: health_milli,
    }
}

#[test]
fn liquidation_never_touches_healthy_positions() {
    // A health factor of exactly 1.0 (or more) is never liquidated.
    let positions = vec![position(1000, u128::MAX / 2), position(1500, u128::MAX / 2)];
    assert!(liquidation_from_positions(&positions, wei(1)).is_none());
}

#[test]
fn liquidation_requires_bonus_above_gas() {
    // Bonus is collateral / 20; a bonus equal to gas is not enough.
    let positions = vec![position(900, 20)];
    assert!(liquidation_from_positions(&positions, wei(1)).is_none());
    let positions = vec![position(900, 40)];
    match liquidation_from_positions(&positions, wei(1)) {
        Some(MEVOpportunity::Liquidation { liquidation_bonus_eth, health_factor_milli, .. }) => {
            assert_eq!(liquidation_bonus_eth, wei(2));
            assert_eq!(health_factor_milli, 900);
        }
        other => panic!("expected a liquidation, got {:?}", other),
    }
}

#[test]
fn liquidation_takes_first_profitable_position() {
    let mut second = position(800, 2_000_000_000_000_000_000);
    second.owner = Address::from_low_u64_be(0x99);
    let positions = vec![
        position(1200, 2_000_000_000_000_000_000), // healthy: skipped
        position(900, 1_000_000_000_000_000_000),  // first eligible
        second,                                    // more profitable but later
    ];
    match liquidation_from_positions(&positions, wei(1)) {
        Some(MEVOpportunity::Liquidation { position_owner, liquidation_bonus_eth, .. }) => {
            assert_eq!(position_owner, Address::from_low_u64_be(0x10));
            assert_eq!(liquidation_bonus_eth, wei(50_000_000_000_000_000));
        }
        other => panic!("expected a liquidation, got {:?}", other),
    }
}

#[test]
fn builtin_positions_never_cover_their_gas() {
    // The oracle's sample position carries a tiny collateral next to the
    // liquidation gas estimate, so the built-in scan yields nothing.
    assert!(detect_liquidation_opportunity().is_none());
}

fn arb(net: u128) -> MEVOpportunity {
    let (a, b) = tokens();
    MEVOpportunity::Arbitrage {
        token_a: a,
        token_b: b,
        buy_dex: DEX::UniswapV2,
        sell_dex: DEX::SushiSwap,
        profit_eth: wei(net + 5),
        gas_cost_eth: wei(5),
        net_profit_eth: wei(net),
    }
}

fn sandwich(profit: u128, gas: u128) -> MEVOpportunity {
    let (a, b) = tokens();
    MEVOpportunity::Sandwich {
        _victim_tx_hash: U256::from_u128(9),
        token_in: a,
        token_out: b,
        victim_amount_in: wei(10_000_000_000_000_000_000),
        frontrun_amount: wei(1_000_000_000_000_000_000),
        backrun_amount: wei(1_050_000_000_000_000_000),
        estimated_profit_eth: wei(profit),
        gas_cost_eth: wei(gas),
    }
}

#[test]
fn net_profit_subtracts_each_strategy_gas() {
    assert_eq!(calculate_net_profit(&arb(7)), wei(7));
    assert_eq!(calculate_net_profit(&sandwich(10, 3)), wei(7));
    // An underwater sandwich scores zero rather than wrapping.
    assert_eq!(calculate_net_profit(&sandwich(3, 10)), wei(0));
}

#[test]
fn selection_picks_greatest_net_profit() {
    let picked = select_best_opportunity(vec![arb(5), sandwich(20, 3), arb(9)]);
    assert_eq!(picked, Some(sandwich(20, 3)));
    assert_eq!(select_best_opportunity(Vec::new()), None);
}

#[test]
fn selection_tie_breaks_to_declaration_order() {
    // Equal net profits: the earlier candidate wins.
    let first = arb(7);
    let second = sandwich(12, 5);
    assert_eq!(select_best_opportunity(vec![first, second]), Some(first));
}

#[test]
fn evaluation_flags_large_v2_swap_as_arbitrage() {
    let amount = wei(2_000_000_000_000_000_000);
    let mut input = vec![0x38, 0xed, 0x17, 0x39];
    input.extend_from_slice(&amount.to_be_bytes());
    input.extend_from_slice(&[0u8; 32]);
    let tx = PendingTransaction {
        hash: U256::from_u128(0xfeed),
        from: Address::from_low_u64_be(0x1),
        to: Some(Address::from_low_u64_be(0x2)),
        value: U256::zero(),
        gas_price: Some(wei(1_000_000_000)),
        input,
    };
    match evaluate_opportunity(&tx) {
        Some(MEVOpportunity::Arbitrage { buy_dex, sell_dex, profit_eth, net_profit_eth, .. }) => {
            assert!(matches!(buy_dex, DEX::UniswapV3));
            assert!(matches!(sell_dex, DEX::SushiSwap));
            assert_eq!(profit_eth, wei(3_000_000_000_000_000_000));
            assert_eq!(net_profit_eth, wei(2_994_000_000_000_000_000));
        }
        other => panic!("expected an arbitrage, got {:?}", other),
    }
}

#[test]
fn evaluation_flags_large_v3_swap_as_arbitrage() {
    // The same figures flow from a single-hop swap once its amountIn is
    // read from its slot at bytes 164..196.
    let amount = wei(2_000_000_000_000_000_000);
    let mut input = vec![0x41, 0x4b, 0xf3, 0x89];
    input.extend_from_slice(&[0u8; 160]);
    input.extend_from_slice(&amount.to_be_bytes());
    let tx = PendingTransaction {
        hash: U256::from_u128(0xbead),
        from: Address::from_low_u64_be(0x1),
        to: Some(Address::from_low_u64_be(0x2)),
        value: U256::zero(),
        gas_price: Some(wei(1_000_000_000)),
        input,
    };
    match evaluate_opportunity(&tx) {
        Some(MEVOpportunity::Arbitrage { buy_dex, sell_dex, net_profit_eth, .. }) => {
            assert!(matches!(buy_dex, DEX::UniswapV3));
            assert!(matches!(sell_dex, DEX::SushiSwap));
            assert_eq!(net_profit_eth, wei(2_994_000_000_000_000_000));
        }
        other => panic!("expected an arbitrage, got {:?}", other),
    }
}

#[test]
fn evaluation_yields_nothing_for_plain_transfers() {
    let mut input = vec![0xa9, 0x05, 0x9c, 0xbb];
    input.extend_from_slice(&[0u8; 64]);
    let tx = PendingTransaction {
        hash: U256::from_u128(0xfeed),
        from: Address::from_low_u64_be(0x1),
        to: Some(Address::from_low_u64_be(0x2)),
        value: wei(1_000_000_000_000_000_000),
        gas_price: Some(wei(1_000_000_000)),
        input,
    };
    assert!(evaluate_opportunity(&tx).is_none());
}

#[test]
fn evaluation_prefers_more_profitable_sandwich() {
    // A 10,000-unit swap: the sandwich nets ~5 native units against the
    // arbitrage's ~3, so selection picks the sandwich.
    let amount = wei(10_000_000_000_000_000_000_000);
    let mut input = vec![0x38, 0xed, 0x17, 0x39];
    input.extend_from_slice(&amount.to_be_bytes());
    input.extend_from_slice(&[0u8; 32]);
    let tx = PendingTransaction {
        hash: U256::from_u128(0xcafe),
        from: Address::from_low_u64_be(0x1),
        to: Some(Address::from_low_u64_be(0x2)),
        value: U256::zero(),
        gas_price: Some(wei(1_000_000_000)),
        input,
    };
    match evaluate_opportunity(&tx) {
        Some(MEVOpportunity::Sandwich {
            victim_amount_in,
            frontrun_amount,
            backrun_amount,
            estimated_profit_eth,
            ..
        }) => {
            assert_eq!(victim_amount_in, amount);
            assert_eq!(frontrun_amount, wei(1_000_000_000_000_000_000_000));
            assert_eq!(backrun_amount, wei(1_050_000_000_000_000_000_000));
            assert_eq!(estimated_profit_eth, wei(5_000_000_000_000_000_000));
        }
        other => panic!("expected a sandwich, got {:?}", other),
    }
}
