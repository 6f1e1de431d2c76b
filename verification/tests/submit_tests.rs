use mempool_vortex::addr::Address;
use mempool_vortex::bundler::{
    create_and_send_bundle, generate_bundle_id, submit_bundle_to_relays, BundleError, MEVBundle,
    RelayConfig, SubmissionStatus, ValidationError,
};
use mempool_vortex::searcher::{MEVOpportunity, DEX};
use mempool_vortex::uint256::U256;

fn wei(x: u128) -> U256 {
    U256::from_u128(x)
}

fn sample_bundle() -> MEVBundle {
    MEVBundle {
        transactions: Vec::new(),
        target_block: 18_500_001,
        min_timestamp: None,
        max_timestamp: None,
        bundle_id: generate_bundle_id(),
        total_gas: wei(400_000),
        expected_profit: wei(1),
    }
}

fn relay(name: &str, enabled: bool) -> RelayConfig {
    RelayConfig {
        name: name.to_string(),
        endpoint: format!("https://{}.example", name),
        signing_key: None,
        enabled,
    }
}

#[test]
fn all_disabled_relays_fail_with_aggregate_error() {
    // Nothing is enabled, so nothing is attempted and the aggregate error
    // names the bundle.
    let bundle = sample_bundle();
    let relays = vec![
        relay("flashbots", false),
        relay("bloXroute", false),
        relay("eden", false),
    ];
    let err = submit_bundle_to_relays(&bundle, &relays).unwrap_err();
    assert_eq!(err.bundle_id, bundle.bundle_id);
}

#[test]
fn empty_relay_list_fails_with_aggregate_error() {
    let bundle = sample_bundle();
    let err = submit_bundle_to_relays(&bundle, &Vec::new()).unwrap_err();
    assert_eq!(err.bundle_id, bundle.bundle_id);
}

#[test]
fn fallback_returns_second_relay_and_skips_third() {
    // The first relay fails (its name matches no submission routine), the
    // second succeeds, the third is never consulted.
    let bundle = sample_bundle();
    let relays = vec![
        relay("deadrelay", true),
        relay("flashbots", true),
        relay("eden", true),
    ];
    let outcome = submit_bundle_to_relays(&bundle, &relays).unwrap();
    assert_eq!(outcome.relay, "flashbots");
    assert!(matches!(outcome.status, SubmissionStatus::Submitted));
    assert_eq!(outcome.bundle_hash, format!("fb_{}", bundle.bundle_id));
    assert_eq!(outcome.block_number, Some(18_500_001));
    assert_eq!(outcome.inclusion_probability_bps, Some(8500));

    // Replacing the third relay changes nothing about the outcome.
    let relays_other_tail = vec![
        relay("deadrelay", true),
        relay("flashbots", true),
        relay("bloXroute", false),
    ];
    let outcome_other = submit_bundle_to_relays(&bundle, &relays_other_tail).unwrap();
    assert_eq!(outcome_other.relay, outcome.relay);
    assert_eq!(outcome_other.bundle_hash, outcome.bundle_hash);
    assert_eq!(outcome_other.inclusion_probability_bps, outcome.inclusion_probability_bps);
}

#[test]
fn disabled_relays_are_skipped_in_priority_order() {
    let bundle = sample_bundle();
    let relays = vec![
        relay("flashbots", false),
        relay("bloXroute", true),
        relay("eden", true),
    ];
    let outcome = submit_bundle_to_relays(&bundle, &relays).unwrap();
    assert_eq!(outcome.relay, "bloXroute");
    assert_eq!(outcome.bundle_hash, format!("bx_{}", bundle.bundle_id));
    assert_eq!(outcome.inclusion_probability_bps, Some(7500));
}

#[test]
fn eden_outcomes_carry_their_own_prefix() {
    let bundle = sample_bundle();
    let relays = vec![relay("eden", true)];
    let outcome = submit_bundle_to_relays(&bundle, &relays).unwrap();
    assert_eq!(outcome.relay, "eden");
    assert_eq!(outcome.bundle_hash, format!("eden_{}", bundle.bundle_id));
    assert_eq!(outcome.inclusion_probability_bps, Some(7000));
}

fn arb_opportunity(net: u128) -> MEVOpportunity {
    MEVOpportunity::Arbitrage {
        token_a: Address::from_low_u64_be(0xa),
        token_b: Address::from_low_u64_be(0xb),
        buy_dex: DEX::UniswapV2,
        sell_dex: DEX::SushiSwap,
        profit_eth: wei(net + 6_000_000_000_000_000),
        gas_cost_eth: wei(6_000_000_000_000_000),
        net_profit_eth: wei(net),
    }
}

#[test]
fn simulation_builds_but_never_submits() {
    // Simulation reports a would-be result without touching any relay and
    // without any credential.
    let outcome = create_and_send_bundle(arb_opportunity(1_000_000_000_000_000), true).unwrap();
    assert_eq!(outcome.relay, "simulation");
    assert_eq!(outcome.bundle_hash, "simulated");
    assert!(matches!(outcome.status, SubmissionStatus::Submitted));
    assert_eq!(outcome.block_number, Some(18_500_001));
    assert_eq!(outcome.inclusion_probability_bps, Some(10_000));
}

#[test]
fn live_submission_reaches_first_enabled_relay() {
    let outcome = create_and_send_bundle(arb_opportunity(1_000_000_000_000_000), false).unwrap();
    assert_eq!(outcome.relay, "flashbots");
    assert!(outcome.bundle_hash.starts_with("fb_bundle_"));
    assert_eq!(outcome.inclusion_probability_bps, Some(8500));
}

#[test]
fn profitless_bundles_are_blocked_before_submission() {
    // Zero expected profit fails validation; no relay is consulted.
    let err = create_and_send_bundle(arb_opportunity(0), false).unwrap_err();
    assert!(matches!(
        err,
        BundleError::Validation(ValidationError::NonPositiveProfit)
    ));
}

#[test]
fn unroutable_opportunities_fail_at_build_time() {
    let op = MEVOpportunity::Arbitrage {
        token_a: Address::from_low_u64_be(0xa),
        token_b: Address::from_low_u64_be(0xb),
        buy_dex: DEX::Balancer,
        sell_dex: DEX::SushiSwap,
        profit_eth: wei(10),
        gas_cost_eth: wei(1),
        net_profit_eth: wei(9),
    };
    let err = create_and_send_bundle(op, false).unwrap_err();
    assert!(matches!(
        err,
        BundleError::Build(mempool_vortex::bundler::BuildError::UnsupportedVenue)
    ));
}
