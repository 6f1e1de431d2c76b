use mempool_vortex::addr::Address;
use mempool_vortex::bundler::SubmissionStatus;
use mempool_vortex::cli::{AddrStyle, Args, ColorChoice};
use mempool_vortex::mempool::{
    format_addr, format_addr_full, format_addr_short, is_high_gas_price, is_high_value,
    process_transaction, reached_dispatch_limit, StreamStats,
};
use mempool_vortex::searcher::PendingTransaction;
use mempool_vortex::text::{str_eq, str_starts_with, u64_to_dec_string, u64_to_hex_padded};
use mempool_vortex::types::{Config, ConfigError, MEVMetrics};
use mempool_vortex::uint256::U256;

fn wei(x: u128) -> U256 {
    U256::from_u128(x)
}

fn swap_tx(amount: u128) -> PendingTransaction {
    let mut input = vec![0x38, 0xed, 0x17, 0x39];
    input.extend_from_slice(&wei(amount).to_be_bytes());
    input.extend_from_slice(&[0u8; 32]);
    PendingTransaction {
        hash: U256::from_u128(0xfeed),
        from: Address::from_low_u64_be(0x1),
        to: Some(Address::from_low_u64_be(0x2)),
        value: U256::zero(),
        gas_price: Some(wei(1_000_000_000)),
        input,
    }
}

#[test]
fn large_swap_flows_through_to_a_submitted_bundle() {
    // A 2-native-unit swap finds the arbitrage, builds the bundle, and the
    // simulated submission reports it.
    let outcome = process_transaction(&swap_tx(2_000_000_000_000_000_000), true).unwrap();
    assert!(matches!(outcome.status, SubmissionStatus::Submitted));
    assert_eq!(outcome.relay, "simulation");
    let live = process_transaction(&swap_tx(2_000_000_000_000_000_000), false).unwrap();
    assert_eq!(live.relay, "flashbots");
}

#[test]
fn small_swap_yields_no_work() {
    assert!(process_transaction(&swap_tx(999_999_999_999_999_999), true).is_none());
}

#[test]
fn high_value_and_gas_flags_use_exact_thresholds() {
    let mut tx = swap_tx(1);
    tx.value = wei(500_000_000_000_000_000);
    assert!(!is_high_value(&tx)); // exactly half a unit is not above it
    tx.value = wei(500_000_000_000_000_001);
    assert!(is_high_value(&tx));
    tx.gas_price = Some(wei(100_000_000_000));
    assert!(!is_high_gas_price(&tx));
    tx.gas_price = Some(wei(100_000_000_001));
    assert!(is_high_gas_price(&tx));
    tx.gas_price = None;
    assert!(!is_high_gas_price(&tx));
}

#[test]
fn stream_stats_count_dispatches_and_outcomes() {
    let mut stats = StreamStats::new();
    stats.record_dispatched();
    stats.record_dispatched();
    stats.record_outcome(true);
    stats.record_outcome(false);
    assert_eq!(stats.processed, 2);
    assert_eq!(stats.opportunities_found, 1);
    assert!(!reached_dispatch_limit(stats.processed, 3));
    assert!(reached_dispatch_limit(stats.processed, 2));
}

#[test]
fn addresses_render_full_and_short() {
    let addr = Address::from_low_u64_be(0xabc);
    let full = format_addr_full(&addr);
    assert_eq!(full, format!("0x{}{}", "0".repeat(37), "abc"));
    let short = format_addr_short(&addr);
    assert_eq!(short, "0x000000…0abc");
    assert_eq!(format_addr(&addr, AddrStyle::Full), full);
    assert_eq!(format_addr(&addr, AddrStyle::Short), short);
}

#[test]
fn mixed_address_renders_every_field() {
    let addr = Address { hi: 0x7a250d56, mid: 0x30B4cF539739dF2C, lo: 0x5dAcb4c659F2488D };
    assert_eq!(
        format_addr_full(&addr),
        "0x7a250d5630b4cf539739df2c5dacb4c659f2488d"
    );
}

#[test]
fn text_helpers_render_and_compare_exactly() {
    assert_eq!(u64_to_dec_string(0), "0");
    assert_eq!(u64_to_dec_string(1_234_567_890), "1234567890");
    assert_eq!(u64_to_dec_string(u64::MAX), "18446744073709551615");
    assert_eq!(u64_to_hex_padded(0xff, 4), "00ff");
    assert_eq!(u64_to_hex_padded(0, 2), "00");
    assert!(str_eq("abc", "abc"));
    assert!(!str_eq("abc", "abd"));
    assert!(!str_eq("abc", "ab"));
    assert!(str_starts_with("wss://node", "wss://"));
    assert!(!str_starts_with("https://node", "wss://"));
    assert!(!str_starts_with("ws", "wss://"));
}

#[test]
fn config_validation_reports_each_fault() {
    let mut config = Config::default();
    assert!(config.validate().is_ok());
    config.eth_rpc_url = String::new();
    assert_eq!(config.validate().unwrap_err(), ConfigError::EmptyRpcUrl);
    config.eth_rpc_url = "https://node.example".to_string();
    assert_eq!(config.validate().unwrap_err(), ConfigError::NotWebSocketUrl);
    config.eth_rpc_url = "wss://node.example".to_string();
    config.mev_config.min_profit_wei = 0;
    assert_eq!(config.validate().unwrap_err(), ConfigError::NonPositiveMinProfit);
    config.mev_config.min_profit_wei = 1;
    config.mev_config.max_gas_price_gwei = 0;
    assert_eq!(config.validate().unwrap_err(), ConfigError::NonPositiveMaxGasPrice);
}

#[test]
fn default_config_carries_reference_thresholds() {
    let config = Config::default();
    assert_eq!(config.mev_config.min_profit_wei, 10_000_000_000_000_000);
    assert_eq!(config.mev_config.arbitrage.min_trade_size_wei, 1_000_000_000_000_000_000);
    assert_eq!(config.mev_config.sandwich.min_victim_size_wei, 5_000_000_000_000_000_000);
    assert!(!config.mev_config.sandwich.enabled);
    assert_eq!(config.mev_config.liquidation.health_factor_threshold_milli, 1000);
    assert_eq!(config.relay_config.priority_order, vec!["flashbots", "bloXroute"]);
    assert_eq!(config.relay_config.submission_timeout_secs, 10);
    assert_eq!(config.gas_config.max_gas_price_gwei, 300);
}

#[test]
fn metrics_fold_counts_and_profit() {
    let mut metrics = MEVMetrics::default();
    metrics.record_transaction();
    metrics.record_transaction();
    metrics.record_opportunity("arbitrage");
    metrics.record_opportunity("sandwich");
    metrics.record_opportunity("other");
    metrics.record_bundle_submission();
    metrics.record_bundle_submission();
    metrics.record_bundle_inclusion(1_000_000, 300_000);
    assert_eq!(metrics.transactions_analyzed, 2);
    assert_eq!(metrics.opportunities_detected, 3);
    assert_eq!(metrics.arbitrage_count, 1);
    assert_eq!(metrics.sandwich_count, 1);
    assert_eq!(metrics.liquidation_count, 0);
    assert_eq!(metrics.bundles_submitted, 2);
    assert_eq!(metrics.bundles_included, 1);
    assert_eq!(metrics.total_profit_wei, 1_000_000);
    assert_eq!(metrics.total_gas_costs_wei, 300_000);
    assert_eq!(metrics.net_profit_wei, 700_000);
    // One inclusion over two submissions: 5000 basis points.
    assert_eq!(metrics.success_rate_bps, 5000);
}

#[test]
fn metrics_success_rate_handles_zero_submissions() {
    let mut metrics = MEVMetrics::default();
    metrics.record_bundle_inclusion(10, 20);
    assert_eq!(metrics.success_rate_bps, 0);
    assert_eq!(metrics.net_profit_wei, 0); // floored, never negative
}

#[test]
fn args_hold_invocation_settings() {
    let args = Args {
        verbose: false,
        simulate: true,
        rpc_url: Some("wss://node.example".to_string()),
        max_tx: 200,
        color: ColorChoice::Auto,
        addr_style: AddrStyle::Short,
    };
    assert!(args.simulate);
    assert_eq!(args.max_tx, 200);
    assert!(matches!(args.color, ColorChoice::Auto));
    assert!(matches!(args.addr_style, AddrStyle::Short));
}
