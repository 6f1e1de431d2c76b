//! Configuration and metrics: the injected, immutable settings the pipeline
//! runs under, and the append-only counters it reports.
//!
//! Monetary figures are integers in wei; ratios are fixed-point integers
//! (basis points, thousandths, or percent), never floating point.

use vstd::prelude::*;
use vstd::string::StrSliceExecFns;
use vstd::string::StringExecFns;
use crate::addr::Address;
use crate::text::str_starts_with;

verus! {

/// Top-level configuration for one pipeline process.
#[derive(Clone, Debug)]
pub struct Config {
    /// Node WebSocket endpoint.
    pub eth_rpc_url: String,
    /// Signing key; absent in simulation mode.
    pub private_key: Option<String>,
    pub mev_config: MEVConfig,
    pub relay_config: RelayConfiguration,
    pub gas_config: GasConfiguration,
}

/// Strategy thresholds shared by the whole pipeline.
#[derive(Clone, Debug)]
pub struct MEVConfig {
    /// Smallest profit worth executing, in wei.
    pub min_profit_wei: u128,
    /// Largest gas price at which execution stays profitable, in gwei.
    pub max_gas_price_gwei: u64,
    pub arbitrage: ArbitrageConfig,
    pub sandwich: SandwichConfig,
    pub liquidation: LiquidationConfig,
}

/// Arbitrage strategy settings.
#[derive(Clone, Debug)]
pub struct ArbitrageConfig {
    /// Smallest trade worth examining, in wei.
    pub min_trade_size_wei: u128,
    /// Largest tolerated slippage, in basis points.
    pub max_slippage_bps: u32,
    /// Venues the strategy may quote.
    pub enabled_dexs: Vec<String>,
    /// Tokens the strategy may touch; empty allows all.
    pub token_whitelist: Vec<Address>,
}

/// Sandwich strategy settings.
#[derive(Clone, Debug)]
pub struct SandwichConfig {
    /// Smallest victim trade worth bracketing, in wei.
    pub min_victim_size_wei: u128,
    /// Largest frontrun relative to the victim trade, in basis points.
    pub max_frontrun_bps: u32,
    /// Gas-price headroom over the victim, in gwei.
    pub gas_price_buffer_gwei: u64,
    pub enabled: bool,
}

/// Liquidation strategy settings.
#[derive(Clone, Debug)]
pub struct LiquidationConfig {
    /// Smallest bonus worth executing, in wei.
    pub min_bonus_wei: u128,
    /// Health factor below which to liquidate, in thousandths.
    pub health_factor_threshold_milli: u64,
    pub enabled_protocols: Vec<String>,
    pub flash_loan_providers: Vec<String>,
}

/// One configured relay with its expected behaviour.
#[derive(Clone, Debug)]
pub struct RelaySettings {
    pub endpoint: String,
    pub auth_key: Option<String>,
    pub enabled: bool,
    /// Expected inclusion probability, in basis points.
    pub inclusion_probability_bps: u32,
    pub avg_latency_ms: u64,
}

/// The relay roster: names in submission priority order, each with its
/// settings.
#[derive(Clone, Debug)]
pub struct RelayConfiguration {
    pub priority_order: Vec<String>,
    /// Settings per relay name; names are unique.
    pub relays: Vec<(String, RelaySettings)>,
    pub submission_timeout_secs: u64,
}

/// How the base gas price is chosen.
#[derive(Clone, Debug)]
pub enum GasStrategy {
    /// A fixed price in gwei.
    Fixed(u64),
    /// The network average plus a buffer.
    NetworkAverage { buffer_gwei: u64 },
    /// A percentile of recent transactions.
    Percentile { percentile: u8 },
    /// A multiple of the going rate, in percent.
    Aggressive { multiplier_percent: u64 },
}

/// How the priority fee is chosen.
#[derive(Clone, Debug)]
pub enum PriorityFeeStrategy {
    /// A fixed fee in gwei.
    Fixed(u64),
    /// A multiple of the base fee, in percent.
    Dynamic { base_fee_multiplier_percent: u64 },
    /// Competitive bidding with a floor in gwei.
    Competitive { min_priority_gwei: u64 },
}

/// Gas pricing settings.
#[derive(Clone, Debug)]
pub struct GasConfiguration {
    pub strategy: GasStrategy,
    pub priority_fee_strategy: PriorityFeeStrategy,
    pub max_gas_price_gwei: u64,
    /// Safety margin on gas limits, in percent; 120 adds a fifth.
    pub gas_limit_multiplier_percent: u64,
}

/// Why a configuration was rejected.
#[derive(Clone, Copy, Debug, PartialEq, Eq, Structural)]
pub enum ConfigError {
    /// The node endpoint is empty.
    EmptyRpcUrl,
    /// The node endpoint is not a `wss://` URL.
    NotWebSocketUrl,
    /// The minimum profit is zero.
    NonPositiveMinProfit,
    /// The maximum gas price is zero.
    NonPositiveMaxGasPrice,
}

impl Default for MEVConfig {
    /// 0.01 native units minimum profit and a 200 gwei ceiling.
    fn default() -> (r: MEVConfig)
        ensures
            r.min_profit_wei == 10_000_000_000_000_000u128,
            r.max_gas_price_gwei == 200,
    {
        MEVConfig {
            min_profit_wei: 10_000_000_000_000_000,
            max_gas_price_gwei: 200,
            arbitrage: ArbitrageConfig::default(),
            sandwich: SandwichConfig::default(),
            liquidation: LiquidationConfig::default(),
        }
    }
}

impl Default for ArbitrageConfig {
    /// One native unit minimum, 2% slippage, the three routable venues.
    fn default() -> (r: ArbitrageConfig)
        ensures
            r.min_trade_size_wei == 1_000_000_000_000_000_000u128,
            r.max_slippage_bps == 200,
            r.enabled_dexs@.len() == 3,
            r.enabled_dexs@[0]@ == "uniswap_v2"@,
            r.enabled_dexs@[1]@ == "uniswap_v3"@,
            r.enabled_dexs@[2]@ == "sushiswap"@,
            r.token_whitelist@.len() == 0,
    {
        let mut enabled_dexs: Vec<String> = Vec::new();
        enabled_dexs.push(String::from_str("uniswap_v2"));
        enabled_dexs.push(String::from_str("uniswap_v3"));
        enabled_dexs.push(String::from_str("sushiswap"));
        ArbitrageConfig {
            min_trade_size_wei: 1_000_000_000_000_000_000,
            max_slippage_bps: 200,
            enabled_dexs,
            token_whitelist: Vec::new(),
        }
    }
}

impl Default for SandwichConfig {
    /// Five native units minimum and a 15% frontrun cap; off by default.
    fn default() -> (r: SandwichConfig)
        ensures
            r.min_victim_size_wei == 5_000_000_000_000_000_000u128,
            r.max_frontrun_bps == 1500,
            r.gas_price_buffer_gwei == 5,
            !r.enabled,
    {
        SandwichConfig {
            min_victim_size_wei: 5_000_000_000_000_000_000,
            max_frontrun_bps: 1500,
            gas_price_buffer_gwei: 5,
            enabled: false,
        }
    }
}

impl Default for LiquidationConfig {
    /// 0.05 native units minimum bonus below a health factor of one.
    fn default() -> (r: LiquidationConfig)
        ensures
            r.min_bonus_wei == 50_000_000_000_000_000u128,
            r.health_factor_threshold_milli == 1000,
            r.enabled_protocols@.len() == 2,
            r.enabled_protocols@[0]@ == "aave"@,
            r.enabled_protocols@[1]@ == "compound"@,
            r.flash_loan_providers@.len() == 2,
            r.flash_loan_providers@[0]@ == "aave"@,
            r.flash_loan_providers@[1]@ == "dydx"@,
    {
        let mut enabled_protocols: Vec<String> = Vec::new();
        enabled_protocols.push(String::from_str("aave"));
        enabled_protocols.push(String::from_str("compound"));
        let mut flash_loan_providers: Vec<String> = Vec::new();
        flash_loan_providers.push(String::from_str("aave"));
        flash_loan_providers.push(String::from_str("dydx"));
        LiquidationConfig {
            min_bonus_wei: 50_000_000_000_000_000,
            health_factor_threshold_milli: 1000,
            enabled_protocols,
            flash_loan_providers,
        }
    }
}

impl Default for RelayConfiguration {
    /// The two enabled relays in priority order, ten-second submissions.
    fn default() -> (r: RelayConfiguration)
        ensures
            r.priority_order@.len() == 2,
            r.priority_order@[0]@ == "flashbots"@,
            r.priority_order@[1]@ == "bloXroute"@,
            r.relays@.len() == 2,
            r.relays@[0].0@ == "flashbots"@,
            r.relays@[0].1.endpoint@ == "https://relay.flashbots.net"@,
            r.relays@[0].1.auth_key is None,
            r.relays@[0].1.enabled,
            r.relays@[0].1.inclusion_probability_bps == 8500,
            r.relays@[0].1.avg_latency_ms == 150,
            r.relays@[1].0@ == "bloXroute"@,
            r.relays@[1].1.endpoint@ == "https://mev.api.blxrbdn.com"@,
            r.relays@[1].1.auth_key is None,
            r.relays@[1].1.enabled,
            r.relays@[1].1.inclusion_probability_bps == 7500,
            r.relays@[1].1.avg_latency_ms == 120,
            r.submission_timeout_secs == 10,
    {
        let mut priority_order: Vec<String> = Vec::new();
        priority_order.push(String::from_str("flashbots"));
        priority_order.push(String::from_str("bloXroute"));
        let mut relays: Vec<(String, RelaySettings)> = Vec::new();
        relays.push(
            (
                String::from_str("flashbots"),
                RelaySettings {
                    endpoint: String::from_str("https://relay.flashbots.net"),
                    auth_key: None,
                    enabled: true,
                    inclusion_probability_bps: 8500,
                    avg_latency_ms: 150,
                },
            ),
        );
        relays.push(
            (
                String::from_str("bloXroute"),
                RelaySettings {
                    endpoint: String::from_str("https://mev.api.blxrbdn.com"),
                    auth_key: None,
                    enabled: true,
                    inclusion_probability_bps: 7500,
                    avg_latency_ms: 120,
                },
            ),
        );
        RelayConfiguration { priority_order, relays, submission_timeout_secs: 10 }
    }
}

impl Default for GasConfiguration {
    /// Network average plus ten gwei, priority at 150% of the base fee.
    fn default() -> (r: GasConfiguration)
        ensures
            r.strategy matches GasStrategy::NetworkAverage { buffer_gwei } && buffer_gwei == 10,
            r.priority_fee_strategy matches PriorityFeeStrategy::Dynamic {
                base_fee_multiplier_percent,
            } && base_fee_multiplier_percent == 150,
            r.max_gas_price_gwei == 300,
            r.gas_limit_multiplier_percent == 120,
    {
        GasConfiguration {
            strategy: GasStrategy::NetworkAverage { buffer_gwei: 10 },
            priority_fee_strategy: PriorityFeeStrategy::Dynamic {
                base_fee_multiplier_percent: 150,
            },
            max_gas_price_gwei: 300,
            gas_limit_multiplier_percent: 120,
        }
    }
}

impl Default for Config {
    /// A placeholder endpoint with every nested default.
    fn default() -> (r: Config)
        ensures
            r.eth_rpc_url@ == "wss://eth-mainnet.g.alchemy.com/v2/your_api_key"@,
            r.private_key is None,
    {
        Config {
            eth_rpc_url: String::from_str("wss://eth-mainnet.g.alchemy.com/v2/your_api_key"),
            private_key: None,
            mev_config: MEVConfig::default(),
            relay_config: RelayConfiguration::default(),
            gas_config: GasConfiguration::default(),
        }
    }
}

/// Whether `s` begins with `p`.
pub open spec fn spec_starts_with(s: Seq<char>, p: Seq<char>) -> bool {
    p.len() <= s.len() && s.subrange(0, p.len() as int) == p
}

impl Config {
    /// Checks the configuration before the pipeline starts: a non-empty
    /// secure WebSocket endpoint and positive profit and gas bounds.
    pub fn validate(&self) -> (r: Result<(), ConfigError>)
        ensures
            self.eth_rpc_url@.len() == 0 ==> r == Err::<(), ConfigError>(ConfigError::EmptyRpcUrl),
            self.eth_rpc_url@.len() > 0 && !spec_starts_with(self.eth_rpc_url@, "wss://"@) ==> r
                == Err::<(), ConfigError>(ConfigError::NotWebSocketUrl),
            self.eth_rpc_url@.len() > 0 && spec_starts_with(self.eth_rpc_url@, "wss://"@)
                && self.mev_config.min_profit_wei == 0 ==> r == Err::<(), ConfigError>(
                ConfigError::NonPositiveMinProfit,
            ),
            self.eth_rpc_url@.len() > 0 && spec_starts_with(self.eth_rpc_url@, "wss://"@)
                && self.mev_config.min_profit_wei > 0 && self.mev_config.max_gas_price_gwei == 0
                ==> r == Err::<(), ConfigError>(ConfigError::NonPositiveMaxGasPrice),
            self.eth_rpc_url@.len() > 0 && spec_starts_with(self.eth_rpc_url@, "wss://"@)
                && self.mev_config.min_profit_wei > 0 && self.mev_config.max_gas_price_gwei > 0
                ==> r == Ok::<(), ConfigError>(()),
    {
        if self.eth_rpc_url.as_str().unicode_len() == 0 {
            return Err(ConfigError::EmptyRpcUrl);
        }
        if !str_starts_with(self.eth_rpc_url.as_str(), "wss://") {
            return Err(ConfigError::NotWebSocketUrl);
        }
        if self.mev_config.min_profit_wei == 0 {
            return Err(ConfigError::NonPositiveMinProfit);
        }
        if self.mev_config.max_gas_price_gwei == 0 {
            return Err(ConfigError::NonPositiveMaxGasPrice);
        }
        Ok(())
    }
}

/// Append-only counters for one pipeline run. Counters saturate rather
/// than wrap; profit totals are in wei.
#[derive(Clone, Debug)]
pub struct MEVMetrics {
    pub transactions_analyzed: u64,
    pub opportunities_detected: u64,
    pub bundles_submitted: u64,
    pub bundles_included: u64,
    pub total_profit_wei: u128,
    pub total_gas_costs_wei: u128,
    /// Profit net of gas, floored at zero.
    pub net_profit_wei: u128,
    pub arbitrage_count: u64,
    pub sandwich_count: u64,
    pub liquidation_count: u64,
    pub avg_processing_latency_ms: u64,
    /// Included over submitted, in basis points.
    pub success_rate_bps: u64,
}

/// `a + 1` capped at the type's maximum.
pub open spec fn spec_sat_inc_u64(a: u64) -> u64 {
    if a == u64::MAX {
        u64::MAX
    } else {
        (a + 1) as u64
    }
}

/// `a + b` capped at the type's maximum.
pub open spec fn spec_sat_add_u128(a: u128, b: u128) -> u128 {
    if a + b > u128::MAX {
        u128::MAX
    } else {
        (a + b) as u128
    }
}

fn sat_inc_u64(a: u64) -> (r: u64)
    ensures
        r == spec_sat_inc_u64(a),
{
    if a == u64::MAX {
        u64::MAX
    } else {
        a + 1
    }
}

fn sat_add_u128(a: u128, b: u128) -> (r: u128)
    ensures
        r == spec_sat_add_u128(a, b),
{
    if a <= u128::MAX - b {
        a + b
    } else {
        u128::MAX
    }
}

impl Default for MEVMetrics {
    /// All counters at zero.
    fn default() -> (r: MEVMetrics)
        ensures
            r.transactions_analyzed == 0,
            r.opportunities_detected == 0,
            r.bundles_submitted == 0,
            r.bundles_included == 0,
            r.total_profit_wei == 0,
            r.total_gas_costs_wei == 0,
            r.net_profit_wei == 0,
            r.arbitrage_count == 0,
            r.sandwich_count == 0,
            r.liquidation_count == 0,
            r.avg_processing_latency_ms == 0,
            r.success_rate_bps == 0,
    {
        MEVMetrics {
            transactions_analyzed: 0,
            opportunities_detected: 0,
            bundles_submitted: 0,
            bundles_included: 0,
            total_profit_wei: 0,
            total_gas_costs_wei: 0,
            net_profit_wei: 0,
            arbitrage_count: 0,
            sandwich_count: 0,
            liquidation_count: 0,
            avg_processing_latency_ms: 0,
            success_rate_bps: 0,
        }
    }
}

impl MEVMetrics {
    /// Counts one analysed transaction.
    pub fn record_transaction(&mut self)
        ensures
            final(self).transactions_analyzed == spec_sat_inc_u64(old(self).transactions_analyzed),
            *final(self) == (MEVMetrics {
                transactions_analyzed: final(self).transactions_analyzed,
                ..*old(self)
            }),
    {
        self.transactions_analyzed = sat_inc_u64(self.transactions_analyzed);
    }

    /// Counts one detected opportunity under its strategy's name.
    pub fn record_opportunity(&mut self, opportunity_type: &str)
        ensures
            final(self).opportunities_detected == spec_sat_inc_u64(
                old(self).opportunities_detected,
            ),
            final(self).arbitrage_count == if opportunity_type@ == "arbitrage"@ {
                spec_sat_inc_u64(old(self).arbitrage_count)
            } else {
                old(self).arbitrage_count
            },
            final(self).sandwich_count == if opportunity_type@ == "sandwich"@ {
                spec_sat_inc_u64(old(self).sandwich_count)
            } else {
                old(self).sandwich_count
            },
            final(self).liquidation_count == if opportunity_type@ == "liquidation"@ {
                spec_sat_inc_u64(old(self).liquidation_count)
            } else {
                old(self).liquidation_count
            },
            *final(self) == (MEVMetrics {
                opportunities_detected: final(self).opportunities_detected,
                arbitrage_count: final(self).arbitrage_count,
                sandwich_count: final(self).sandwich_count,
                liquidation_count: final(self).liquidation_count,
                ..*old(self)
            }),
    {
        proof {
            reveal_strlit("arbitrage");
            reveal_strlit("sandwich");
            reveal_strlit("liquidation");
            assert("arbitrage"@.len() == 9);
            assert("sandwich"@.len() == 8);
            assert("liquidation"@.len() == 11);
            assert("arbitrage"@ != "sandwich"@ && "arbitrage"@ != "liquidation"@ && "sandwich"@
                != "liquidation"@);
        }
        self.opportunities_detected = sat_inc_u64(self.opportunities_detected);
        if crate::text::str_eq(opportunity_type, "arbitrage") {
            self.arbitrage_count = sat_inc_u64(self.arbitrage_count);
        } else if crate::text::str_eq(opportunity_type, "sandwich") {
            self.sandwich_count = sat_inc_u64(self.sandwich_count);
        } else if crate::text::str_eq(opportunity_type, "liquidation") {
            self.liquidation_count = sat_inc_u64(self.liquidation_count);
        }
    }

    /// Counts one submitted bundle.
    pub fn record_bundle_submission(&mut self)
        ensures
            final(self).bundles_submitted == spec_sat_inc_u64(old(self).bundles_submitted),
            *final(self) == (MEVMetrics {
                bundles_submitted: final(self).bundles_submitted,
                ..*old(self)
            }),
    {
        self.bundles_submitted = sat_inc_u64(self.bundles_submitted);
    }

    /// Counts one included bundle and folds its profit and gas cost into
    /// the running totals, the net figure, and the success rate.
    pub fn record_bundle_inclusion(&mut self, profit_wei: u128, gas_cost_wei: u128)
        ensures
            final(self).bundles_included == spec_sat_inc_u64(old(self).bundles_included),
            final(self).total_profit_wei == spec_sat_add_u128(
                old(self).total_profit_wei,
                profit_wei,
            ),
            final(self).total_gas_costs_wei == spec_sat_add_u128(
                old(self).total_gas_costs_wei,
                gas_cost_wei,
            ),
            final(self).net_profit_wei == if final(self).total_profit_wei
                > final(self).total_gas_costs_wei {
                (final(self).total_profit_wei - final(self).total_gas_costs_wei) as u128
            } else {
                0u128
            },
            old(self).bundles_submitted == 0 ==> final(self).success_rate_bps == 0,
            old(self).bundles_submitted > 0 ==> final(self).success_rate_bps as int == ({
                let rate = final(self).bundles_included as int * 10000 / (
                old(self).bundles_submitted as int);
                if rate > u64::MAX as int {
                    u64::MAX as int
                } else {
                    rate
                }
            }),
            *final(self) == (MEVMetrics {
                bundles_included: final(self).bundles_included,
                total_profit_wei: final(self).total_profit_wei,
                total_gas_costs_wei: final(self).total_gas_costs_wei,
                net_profit_wei: final(self).net_profit_wei,
                success_rate_bps: final(self).success_rate_bps,
                ..*old(self)
            }),
    {
        self.bundles_included = sat_inc_u64(self.bundles_included);
        self.total_profit_wei = sat_add_u128(self.total_profit_wei, profit_wei);
        self.total_gas_costs_wei = sat_add_u128(self.total_gas_costs_wei, gas_cost_wei);
        self.net_profit_wei = if self.total_profit_wei > self.total_gas_costs_wei {
            self.total_profit_wei - self.total_gas_costs_wei
        } else {
            0
        };
        if self.bundles_submitted == 0 {
            self.success_rate_bps = 0;
        } else {
            let scaled: u128 = self.bundles_included as u128 * 10000;
            let rate: u128 = scaled / (self.bundles_submitted as u128);
            self.success_rate_bps = if rate > u64::MAX as u128 {
                u64::MAX
            } else {
                rate as u64
            };
        }
    }
}

} // verus!
