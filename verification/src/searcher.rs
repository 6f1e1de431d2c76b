//! Opportunity detection: classifies a pending transaction from its calldata
//! and runs three independent strategies — arbitrage, sandwich, liquidation —
//! selecting the candidate with the greatest net profit.
//!
//! Every amount is a 256-bit integer in wei; health factors and inclusion
//! probabilities are fixed-point integers (thousandths and basis points).

use vstd::prelude::*;
use crate::addr::Address;
use crate::uint256::{be_bytes_nat, U256};
use crate::uint256::lemma_canonical_limbs;
use vstd::arithmetic::mul::{lemma_mul_inequality, lemma_mul_is_commutative};

verus! {

/// Smallest swap worth checking for arbitrage: one native unit, in wei.
pub const ARBITRAGE_MIN_TRADE_WEI: u128 = 1_000_000_000_000_000_000;

/// Smallest victim swap worth sandwiching: five native units, in wei.
pub const SANDWICH_MIN_TRADE_WEI: u128 = 5_000_000_000_000_000_000;

/// Ceiling on the victim's gas price for a profitable sandwich: 50 gwei.
pub const SANDWICH_MAX_GAS_PRICE_WEI: u128 = 50_000_000_000;

/// Gas-cost estimate for a two-leg arbitrage: 300k gas at 20 gwei.
pub const ARBITRAGE_GAS_COST_WEI: u128 = 6_000_000_000_000_000;

/// Gas-cost estimate for a three-leg liquidation: 500k gas at 25 gwei.
pub const LIQUIDATION_GAS_COST_WEI: u128 = 12_500_000_000_000_000;

/// Gas units modelled for the frontrun and backrun legs together.
pub const SANDWICH_GAS_UNITS: u64 = 400_000;

/// Modelled price impact of the frontrun leg, in basis points.
pub const PRICE_IMPACT_BPS: u64 = 50;

pub const BPS_DENOMINATOR: u64 = 10_000;

/// The frontrun takes a tenth of the victim's amount.
pub const FRONTRUN_DIVISOR: u64 = 10;

/// The backrun sells 5% more than the frontrun bought.
pub const BACKRUN_NUMERATOR: u64 = 105;

pub const BACKRUN_DENOMINATOR: u64 = 100;

/// Health factors are stored in thousandths; below this a position is
/// eligible for liquidation.
pub const HEALTH_FACTOR_LIQUIDATION_MILLI: u64 = 1000;

/// The liquidation bonus is a twentieth (5%) of the collateral.
pub const LIQUIDATION_BONUS_DIVISOR: u64 = 20;

/// A pending transaction as the pipeline sees it: identity, parties, value,
/// gas price and raw calldata.
pub struct PendingTransaction {
    pub hash: U256,
    pub from: Address,
    pub to: Option<Address>,
    pub value: U256,
    pub gas_price: Option<U256>,
    pub input: Vec<u8>,
}

/// Supported venues for swap routing and arbitrage detection.
#[derive(Clone, Copy, Debug, PartialEq, Eq, Structural)]
pub enum DEX {
    UniswapV2,
    UniswapV3,
    SushiSwap,
    PancakeSwap,
    Balancer,
}

/// Supported lending protocols for liquidation detection.
#[derive(Clone, Copy, Debug, PartialEq, Eq, Structural)]
pub enum Protocol {
    Aave,
    Compound,
    MakerDAO,
    Euler,
}

/// What a transaction's calldata says it intends to do.
#[derive(Clone, Copy, Debug, PartialEq, Eq, Structural)]
pub enum TxType {
    ERC20Transfer { token: Address, amount: U256 },
    UniswapV2Swap { token_in: Address, token_out: Address, amount_in: U256 },
    UniswapV3Swap { token_in: Address, token_out: Address, amount_in: U256 },
    CompoundSupply { token: Address, amount: U256 },
    AaveBorrow { token: Address, amount: U256 },
    Unknown,
}

/// A scored opportunity, carrying everything its bundle needs.
#[derive(Clone, Copy, Debug, PartialEq, Eq, Structural)]
pub enum MEVOpportunity {
    /// A price gap between two venues for the same pair.
    Arbitrage {
        token_a: Address,
        token_b: Address,
        buy_dex: DEX,
        sell_dex: DEX,
        profit_eth: U256,
        gas_cost_eth: U256,
        net_profit_eth: U256,
    },
    /// A large pending swap worth bracketing.
    Sandwich {
        _victim_tx_hash: U256,
        token_in: Address,
        token_out: Address,
        victim_amount_in: U256,
        frontrun_amount: U256,
        backrun_amount: U256,
        estimated_profit_eth: U256,
        gas_cost_eth: U256,
    },
    /// An undercollateralised position whose bonus beats the gas.
    Liquidation {
        protocol: Protocol,
        position_owner: Address,
        collateral_token: Address,
        debt_token: Address,
        collateral_amount: U256,
        debt_amount: U256,
        liquidation_bonus_eth: U256,
        /// Health factor in thousandths; 1000 stands for 1.0.
        health_factor_milli: u64,
    },
}

/// An open debt position as the position oracle reports it.
#[derive(Clone, Copy, Debug, PartialEq, Eq, Structural)]
pub struct LendingPosition {
    pub protocol: Protocol,
    pub owner: Address,
    pub collateral_token: Address,
    pub debt_token: Address,
    pub collateral_amount: U256,
    pub debt_amount: U256,
    /// Health factor in thousandths; 1000 stands for 1.0.
    pub health_factor_milli: u64,
}

pub open spec fn spec_to_or_zero(to: Option<Address>) -> Address {
    match to {
        Some(a) => a,
        None => Address { hi: 0, mid: 0, lo: 0 },
    }
}

pub open spec fn has_selector(input: Seq<u8>, s0: u8, s1: u8, s2: u8, s3: u8) -> bool {
    input.len() >= 4 && input[0] == s0 && input[1] == s1 && input[2] == s2 && input[3] == s3
}

/// What classification returns for given calldata and recipient.
pub open spec fn spec_decode(input: Seq<u8>, to: Option<Address>) -> TxType {
    if input.len() < 4 {
        TxType::Unknown
    } else if has_selector(input, 0xa9, 0x05, 0x9c, 0xbb) {
        // ERC-20 transfer(address,uint256)
        if input.len() >= 68 {
            TxType::ERC20Transfer {
                token: spec_to_or_zero(to),
                amount: U256::spec_from_nat(be_bytes_nat(input.subrange(36, 68))),
            }
        } else {
            TxType::Unknown
        }
    } else if has_selector(input, 0x38, 0xed, 0x17, 0x39) {
        // swapExactTokensForTokens(uint256,uint256,address[],address,uint256)
        if input.len() >= 68 {
            TxType::UniswapV2Swap {
                token_in: Address { hi: 0, mid: 0, lo: 0 },
                token_out: Address { hi: 0, mid: 0, lo: 0 },
                amount_in: U256::spec_from_nat(be_bytes_nat(input.subrange(4, 36))),
            }
        } else {
            TxType::Unknown
        }
    } else if has_selector(input, 0x41, 0x4b, 0xf3, 0x89) {
        // exactInputSingle(ExactInputSingleParams): amountIn is the sixth
        // 32-byte word of the static parameter tuple, at bytes 164..196.
        if input.len() >= 196 {
            TxType::UniswapV3Swap {
                token_in: Address { hi: 0, mid: 0, lo: 0 },
                token_out: Address { hi: 0, mid: 0, lo: 0 },
                amount_in: U256::spec_from_nat(be_bytes_nat(input.subrange(164, 196))),
            }
        } else {
            TxType::Unknown
        }
    } else {
        TxType::Unknown
    }
}

/// Classifies a transaction from the selector at the head of its calldata.
/// Total: anything unrecognised, or too short to decode, is `Unknown`.
pub fn decode_transaction_type(tx: &PendingTransaction) -> (t: TxType)
    ensures
        t == spec_decode(tx.input@, tx.to),
{
    let input = &tx.input;
    if input.len() < 4 {
        return TxType::Unknown;
    }
    if input[0] == 0xa9 && input[1] == 0x05 && input[2] == 0x9c && input[3] == 0xbb {
        if input.len() >= 68 {
            let amount = U256::from_be_slice(input, 36);
            proof {
                lemma_canonical_limbs(amount);
            }
            let token = match tx.to {
                Some(a) => a,
                None => Address::zero(),
            };
            TxType::ERC20Transfer { token, amount }
        } else {
            TxType::Unknown
        }
    } else if input[0] == 0x38 && input[1] == 0xed && input[2] == 0x17 && input[3] == 0x39 {
        if input.len() >= 68 {
            let amount_in = U256::from_be_slice(input, 4);
            proof {
                lemma_canonical_limbs(amount_in);
            }
            TxType::UniswapV2Swap {
                token_in: Address::zero(),
                token_out: Address::zero(),
                amount_in,
            }
        } else {
            TxType::Unknown
        }
    } else if input[0] == 0x41 && input[1] == 0x4b && input[2] == 0xf3 && input[3] == 0x89 {
        if input.len() >= 196 {
            let amount_in = U256::from_be_slice(input, 164);
            proof {
                lemma_canonical_limbs(amount_in);
            }
            TxType::UniswapV3Swap {
                token_in: Address::zero(),
                token_out: Address::zero(),
                amount_in,
            }
        } else {
            TxType::Unknown
        }
    } else {
        TxType::Unknown
    }
}

/// The simulated execution prices the price oracle reports, in listing order.
pub open spec fn spec_mock_prices() -> Seq<(DEX, U256)> {
    seq![
        (DEX::UniswapV2, U256::spec_from_nat(1_000_000_000_000_000_000_000)),
        (DEX::SushiSwap, U256::spec_from_nat(1_002_000_000_000_000_000_000)),
        (DEX::UniswapV3, U256::spec_from_nat(999_000_000_000_000_000_000)),
    ]
}

/// Simulated venue prices for one trade; stands in for a live price oracle.
pub fn simulate_dex_prices(_token_in: Address, _token_out: Address, _amount: U256) -> (r: Vec<
    (DEX, U256),
>)
    ensures
        r@ == spec_mock_prices(),
{
    let p0 = U256::from_u128(1_000_000_000_000_000_000_000);
    let p1 = U256::from_u128(1_002_000_000_000_000_000_000);
    let p2 = U256::from_u128(999_000_000_000_000_000_000);
    proof {
        lemma_canonical_limbs(p0);
        lemma_canonical_limbs(p1);
        lemma_canonical_limbs(p2);
    }
    let mut prices: Vec<(DEX, U256)> = Vec::new();
    prices.push((DEX::UniswapV2, p0));
    prices.push((DEX::SushiSwap, p1));
    prices.push((DEX::UniswapV3, p2));
    proof {
        assert(prices@ =~= spec_mock_prices());
    }
    prices
}

/// The open positions the position oracle reports.
pub open spec fn spec_mock_positions() -> Seq<LendingPosition> {
    seq![
        LendingPosition {
            protocol: Protocol::Aave,
            owner: Address { hi: 0, mid: 0, lo: 0x1234567890abcdef },
            collateral_token: Address { hi: 0, mid: 0, lo: 0xa0b86a33 },
            debt_token: Address { hi: 0, mid: 0, lo: 0xc02aaa39 },
            collateral_amount: U256::spec_from_nat(10_000_000_000),
            debt_amount: U256::spec_from_nat(4_000_000_000_000_000_000),
            health_factor_milli: 950,
        },
    ]
}

/// Simulated open debt positions; stands in for a live position oracle.
pub fn get_mock_liquidation_positions() -> (r: Vec<LendingPosition>)
    ensures
        r@ == spec_mock_positions(),
{
    let collateral_amount = U256::from_u128(10_000_000_000);
    let debt_amount = U256::from_u128(4_000_000_000_000_000_000);
    proof {
        lemma_canonical_limbs(collateral_amount);
        lemma_canonical_limbs(debt_amount);
    }
    let mut positions: Vec<LendingPosition> = Vec::new();
    positions.push(
        LendingPosition {
            protocol: Protocol::Aave,
            owner: Address::from_low_u64_be(0x1234567890abcdef),
            collateral_token: Address::from_low_u64_be(0xa0b86a33),
            debt_token: Address::from_low_u64_be(0xc02aaa39),
            collateral_amount,
            debt_amount,
            health_factor_milli: 950,
        },
    );
    proof {
        assert(positions@ =~= spec_mock_positions());
    }
    positions
}

/// Gas-cost estimate for a two-leg arbitrage trade.
pub fn estimate_arbitrage_gas_cost() -> (r: U256)
    ensures
        r == U256::spec_from_nat(ARBITRAGE_GAS_COST_WEI as nat),
        r.as_nat() == ARBITRAGE_GAS_COST_WEI,
{
    let r = U256::from_u128(ARBITRAGE_GAS_COST_WEI);
    proof {
        lemma_canonical_limbs(r);
    }
    r
}

/// Gas-cost estimate for the two sandwich legs at the victim's gas price.
pub fn estimate_sandwich_gas_cost(gas_price: U256) -> (r: U256)
    requires
        gas_price.as_nat() * SANDWICH_GAS_UNITS < crate::uint256::b256(),
    ensures
        r.as_nat() == gas_price.as_nat() * SANDWICH_GAS_UNITS,
{
    gas_price.mul_small(SANDWICH_GAS_UNITS).unwrap()
}

/// Gas-cost estimate for a three-leg flash-loan liquidation.
pub fn estimate_liquidation_gas_cost() -> (r: U256)
    ensures
        r == U256::spec_from_nat(LIQUIDATION_GAS_COST_WEI as nat),
        r.as_nat() == LIQUIDATION_GAS_COST_WEI,
{
    let r = U256::from_u128(LIQUIDATION_GAS_COST_WEI);
    proof {
        lemma_canonical_limbs(r);
    }
    r
}

/// Modelled sandwich profit: the price-impact fraction of the frontrun
/// amount, or `None` when the scaled product leaves 256 bits.
pub fn calculate_sandwich_profit(_victim_amount: U256, frontrun_amount: U256) -> (r: Option<
    U256,
>)
    ensures
        frontrun_amount.as_nat() * PRICE_IMPACT_BPS < crate::uint256::b256() ==> r is Some
            && r.unwrap().as_nat() == frontrun_amount.as_nat() * PRICE_IMPACT_BPS / (
        BPS_DENOMINATOR as int),
        frontrun_amount.as_nat() * PRICE_IMPACT_BPS >= crate::uint256::b256() ==> r is None,
{
    match frontrun_amount.mul_small(PRICE_IMPACT_BPS) {
        Some(scaled) => Some(scaled.div_small(BPS_DENOMINATOR)),
        None => None,
    }
}

pub open spec fn price_of(prices: Seq<(DEX, U256)>, i: int) -> nat {
    prices[i].1.as_nat()
}

/// Index of the first venue whose price is minimal.
pub open spec fn first_min_idx(prices: Seq<(DEX, U256)>) -> int
    decreases prices.len(),
{
    if prices.len() <= 1 {
        0
    } else {
        let m = first_min_idx(prices.drop_last());
        if price_of(prices, prices.len() - 1) < price_of(prices, m) {
            prices.len() - 1
        } else {
            m
        }
    }
}

/// Index of the first venue whose price is maximal.
pub open spec fn first_max_idx(prices: Seq<(DEX, U256)>) -> int
    decreases prices.len(),
{
    if prices.len() <= 1 {
        0
    } else {
        let m = first_max_idx(prices.drop_last());
        if price_of(prices, prices.len() - 1) > price_of(prices, m) {
            prices.len() - 1
        } else {
            m
        }
    }
}

/// The first-minimum index is in range, minimal, and earliest among minima.
pub proof fn lemma_first_min_idx_props(prices: Seq<(DEX, U256)>)
    requires
        prices.len() > 0,
    ensures
        0 <= first_min_idx(prices) < prices.len(),
        forall|j: int|
            0 <= j < prices.len() ==> price_of(prices, first_min_idx(prices)) <= #[trigger] price_of(
                prices,
                j,
            ),
        forall|j: int|
            0 <= j < first_min_idx(prices) ==> #[trigger] price_of(prices, j) > price_of(
                prices,
                first_min_idx(prices),
            ),
    decreases prices.len(),
{
    if prices.len() > 1 {
        lemma_first_min_idx_props(prices.drop_last());
        assert(forall|j: int|
            0 <= j < prices.len() - 1 ==> price_of(prices.drop_last(), j) == price_of(prices, j));
    }
}

/// The first-maximum index is in range, maximal, and earliest among maxima.
pub proof fn lemma_first_max_idx_props(prices: Seq<(DEX, U256)>)
    requires
        prices.len() > 0,
    ensures
        0 <= first_max_idx(prices) < prices.len(),
        forall|j: int|
            0 <= j < prices.len() ==> price_of(prices, first_max_idx(prices)) >= #[trigger] price_of(
                prices,
                j,
            ),
        forall|j: int|
            0 <= j < first_max_idx(prices) ==> #[trigger] price_of(prices, j) < price_of(
                prices,
                first_max_idx(prices),
            ),
    decreases prices.len(),
{
    if prices.len() > 1 {
        lemma_first_max_idx_props(prices.drop_last());
        assert(forall|j: int|
            0 <= j < prices.len() - 1 ==> price_of(prices.drop_last(), j) == price_of(prices, j));
    }
}

/// What the arbitrage strategy yields for a trade, a set of venue prices and
/// a gas-cost estimate: buy at the first minimum, sell at the first maximum,
/// and only when the gap more than covers the gas.
pub open spec fn spec_arbitrage_from_prices(
    token_a: Address,
    token_b: Address,
    amount_in: U256,
    prices: Seq<(DEX, U256)>,
    gas_cost: U256,
) -> Option<MEVOpportunity> {
    if amount_in.as_nat() < ARBITRAGE_MIN_TRADE_WEI || prices.len() == 0 {
        None
    } else {
        let mi = first_min_idx(prices);
        let ma = first_max_idx(prices);
        let gap = price_of(prices, ma) - price_of(prices, mi);
        if gap > gas_cost.as_nat() {
            Some(
                MEVOpportunity::Arbitrage {
                    token_a,
                    token_b,
                    buy_dex: prices[mi].0,
                    sell_dex: prices[ma].0,
                    profit_eth: U256::spec_from_nat(gap as nat),
                    gas_cost_eth: gas_cost,
                    net_profit_eth: U256::spec_from_nat((gap - gas_cost.as_nat()) as nat),
                },
            )
        } else {
            None
        }
    }
}

/// Scores one trade against a set of venue prices.
pub fn arbitrage_from_prices(
    token_a: Address,
    token_b: Address,
    amount_in: U256,
    prices: &Vec<(DEX, U256)>,
    gas_cost: U256,
) -> (r: Option<MEVOpportunity>)
    ensures
        r == spec_arbitrage_from_prices(token_a, token_b, amount_in, prices@, gas_cost),
{
    let threshold = U256::from_u128(ARBITRAGE_MIN_TRADE_WEI);
    if amount_in.lt(&threshold) {
        return None;
    }
    if prices.len() == 0 {
        return None;
    }
    let mut best_buy: usize = 0;
    let mut best_sell: usize = 0;
    let mut i: usize = 1;
    proof {
        assert(prices@.take(1).len() == 1);
    }
    while i < prices.len()
        invariant
            1 <= i <= prices.len(),
            best_buy < i,
            best_sell < i,
            best_buy == first_min_idx(prices@.take(i as int)),
            best_sell == first_max_idx(prices@.take(i as int)),
        decreases prices.len() - i,
    {
        proof {
            assert(prices@.take(i + 1).drop_last() =~= prices@.take(i as int));
        }
        if prices[i].1.lt(&prices[best_buy].1) {
            best_buy = i;
        }
        if prices[i].1.gt(&prices[best_sell].1) {
            best_sell = i;
        }
        i = i + 1;
    }
    proof {
        assert(prices@.take(prices@.len() as int) =~= prices@);
        lemma_first_min_idx_props(prices@);
        lemma_first_max_idx_props(prices@);
    }
    let buy_price = prices[best_buy].1;
    let sell_price = prices[best_sell].1;
    let gap = sell_price.checked_sub(&buy_price).unwrap();
    if gap.gt(&gas_cost) {
        let net = gap.checked_sub(&gas_cost).unwrap();
        proof {
            lemma_canonical_limbs(gap);
            lemma_canonical_limbs(net);
        }
        Some(
            MEVOpportunity::Arbitrage {
                token_a,
                token_b,
                buy_dex: prices[best_buy].0,
                sell_dex: prices[best_sell].0,
                profit_eth: gap,
                gas_cost_eth: gas_cost,
                net_profit_eth: net,
            },
        )
    } else {
        None
    }
}

/// What arbitrage detection yields for a classified transaction: swaps are
/// priced across the oracle's venues; everything else yields nothing.
pub open spec fn spec_detect_arbitrage(t: TxType) -> Option<MEVOpportunity> {
    match t {
        TxType::UniswapV2Swap { token_in, token_out, amount_in } => spec_arbitrage_from_prices(
            token_in,
            token_out,
            amount_in,
            spec_mock_prices(),
            U256::spec_from_nat(ARBITRAGE_GAS_COST_WEI as nat),
        ),
        TxType::UniswapV3Swap { token_in, token_out, amount_in } => spec_arbitrage_from_prices(
            token_in,
            token_out,
            amount_in,
            spec_mock_prices(),
            U256::spec_from_nat(ARBITRAGE_GAS_COST_WEI as nat),
        ),
        _ => None,
    }
}

/// Runs the arbitrage strategy against a classified transaction.
pub fn detect_arbitrage(_tx: &PendingTransaction, tx_type: &TxType) -> (r: Option<
    MEVOpportunity,
>)
    ensures
        r == spec_detect_arbitrage(*tx_type),
{
    match *tx_type {
        TxType::UniswapV2Swap { token_in, token_out, amount_in } => {
            let prices = simulate_dex_prices(token_in, token_out, amount_in);
            arbitrage_from_prices(
                token_in,
                token_out,
                amount_in,
                &prices,
                estimate_arbitrage_gas_cost(),
            )
        },
        TxType::UniswapV3Swap { token_in, token_out, amount_in } => {
            let prices = simulate_dex_prices(token_in, token_out, amount_in);
            arbitrage_from_prices(
                token_in,
                token_out,
                amount_in,
                &prices,
                estimate_arbitrage_gas_cost(),
            )
        },
        _ => None,
    }
}

/// The victim's gas price, taking a missing one as zero.
pub open spec fn spec_gas_price_or_zero(gp: Option<U256>) -> nat {
    match gp {
        Some(g) => g.as_nat(),
        None => 0,
    }
}

/// What the sandwich strategy yields for one swap: a tenth of the victim's
/// amount frontrun, 5% more backrun, yielded only when the modelled
/// price-impact profit beats two legs of gas at the victim's price.
pub open spec fn spec_sandwich_for_swap(
    victim_hash: U256,
    gas_price: nat,
    token_in: Address,
    token_out: Address,
    amount_in: U256,
) -> Option<MEVOpportunity> {
    let amt = amount_in.as_nat() as int;
    let fr = amt / (FRONTRUN_DIVISOR as int);
    if amt < SANDWICH_MIN_TRADE_WEI as int {
        None
    } else if gas_price > SANDWICH_MAX_GAS_PRICE_WEI as nat {
        None
    } else if fr * (BACKRUN_NUMERATOR as int) >= crate::uint256::b256() as int {
        None
    } else {
        let br = fr * (BACKRUN_NUMERATOR as int) / (BACKRUN_DENOMINATOR as int);
        let profit = fr * (PRICE_IMPACT_BPS as int) / (BPS_DENOMINATOR as int);
        let cost = gas_price as int * (SANDWICH_GAS_UNITS as int);
        if profit > cost {
            Some(
                MEVOpportunity::Sandwich {
                    _victim_tx_hash: victim_hash,
                    token_in,
                    token_out,
                    victim_amount_in: amount_in,
                    frontrun_amount: U256::spec_from_nat(fr as nat),
                    backrun_amount: U256::spec_from_nat(br as nat),
                    estimated_profit_eth: U256::spec_from_nat(profit as nat),
                    gas_cost_eth: U256::spec_from_nat(cost as nat),
                },
            )
        } else {
            None
        }
    }
}

/// What sandwich detection yields for a classified transaction.
pub open spec fn spec_detect_sandwich(
    victim_hash: U256,
    gas_price: Option<U256>,
    t: TxType,
) -> Option<MEVOpportunity> {
    match t {
        TxType::UniswapV2Swap { token_in, token_out, amount_in } => spec_sandwich_for_swap(
            victim_hash,
            spec_gas_price_or_zero(gas_price),
            token_in,
            token_out,
            amount_in,
        ),
        TxType::UniswapV3Swap { token_in, token_out, amount_in } => spec_sandwich_for_swap(
            victim_hash,
            spec_gas_price_or_zero(gas_price),
            token_in,
            token_out,
            amount_in,
        ),
        _ => None,
    }
}

/// Scores one swap for bracketing, at the victim's gas price.
fn sandwich_for_swap(
    victim_hash: U256,
    gas_price_opt: Option<U256>,
    token_in: Address,
    token_out: Address,
    amount_in: U256,
) -> (r: Option<MEVOpportunity>)
    ensures
        r == spec_sandwich_for_swap(
            victim_hash,
            spec_gas_price_or_zero(gas_price_opt),
            token_in,
            token_out,
            amount_in,
        ),
{
    let min_amount = U256::from_u128(SANDWICH_MIN_TRADE_WEI);
    if amount_in.lt(&min_amount) {
        return None;
    }
    let gas_price = match gas_price_opt {
        Some(g) => g,
        None => U256::zero(),
    };
    let max_gas = U256::from_u128(SANDWICH_MAX_GAS_PRICE_WEI);
    if gas_price.gt(&max_gas) {
        return None;
    }
    let frontrun_amount = amount_in.div_small(FRONTRUN_DIVISOR);
    let backrun_amount = match frontrun_amount.mul_small(BACKRUN_NUMERATOR) {
        Some(scaled) => scaled.div_small(BACKRUN_DENOMINATOR),
        None => {
            return None;
        },
    };
    proof {
        // The profit product is smaller than the backrun product that just
        // fit, so it fits as well.
        lemma_mul_inequality(
            PRICE_IMPACT_BPS as int,
            BACKRUN_NUMERATOR as int,
            frontrun_amount.as_nat() as int,
        );
        lemma_mul_is_commutative(frontrun_amount.as_nat() as int, PRICE_IMPACT_BPS as int);
        lemma_mul_is_commutative(frontrun_amount.as_nat() as int, BACKRUN_NUMERATOR as int);
    }
    let estimated_profit = match calculate_sandwich_profit(amount_in, frontrun_amount) {
        Some(p) => p,
        None => {
            proof {
                assert(false);
            }
            return None;
        },
    };
    proof {
        lemma_mul_inequality(
            gas_price.as_nat() as int,
            SANDWICH_MAX_GAS_PRICE_WEI as int,
            SANDWICH_GAS_UNITS as int,
        );
    }
    let gas_cost = estimate_sandwich_gas_cost(gas_price);
    if estimated_profit.gt(&gas_cost) {
        proof {
            lemma_canonical_limbs(frontrun_amount);
            lemma_canonical_limbs(backrun_amount);
            lemma_canonical_limbs(estimated_profit);
            lemma_canonical_limbs(gas_cost);
        }
        Some(
            MEVOpportunity::Sandwich {
                _victim_tx_hash: victim_hash,
                token_in,
                token_out,
                victim_amount_in: amount_in,
                frontrun_amount,
                backrun_amount,
                estimated_profit_eth: estimated_profit,
                gas_cost_eth: gas_cost,
            },
        )
    } else {
        None
    }
}

/// Runs the sandwich strategy against a classified transaction.
pub fn detect_sandwich_opportunity(tx: &PendingTransaction, tx_type: &TxType) -> (r: Option<
    MEVOpportunity,
>)
    ensures
        r == spec_detect_sandwich(tx.hash, tx.gas_price, *tx_type),
{
    match *tx_type {
        TxType::UniswapV2Swap { token_in, token_out, amount_in } => sandwich_for_swap(
            tx.hash,
            tx.gas_price,
            token_in,
            token_out,
            amount_in,
        ),
        TxType::UniswapV3Swap { token_in, token_out, amount_in } => sandwich_for_swap(
            tx.hash,
            tx.gas_price,
            token_in,
            token_out,
            amount_in,
        ),
        _ => None,
    }
}

/// A position is worth liquidating when its health factor is below one and
/// the 5% bonus on its collateral beats the gas estimate.
pub open spec fn spec_liq_candidate(p: LendingPosition, gas_cost: U256) -> bool {
    p.health_factor_milli < HEALTH_FACTOR_LIQUIDATION_MILLI
        && p.collateral_amount.as_nat() as int / (LIQUIDATION_BONUS_DIVISOR as int)
        > gas_cost.as_nat() as int
}

/// The opportunity built from one eligible position.
pub open spec fn spec_liq_opportunity(p: LendingPosition) -> MEVOpportunity {
    MEVOpportunity::Liquidation {
        protocol: p.protocol,
        position_owner: p.owner,
        collateral_token: p.collateral_token,
        debt_token: p.debt_token,
        collateral_amount: p.collateral_amount,
        debt_amount: p.debt_amount,
        liquidation_bonus_eth: U256::spec_from_nat(
            (p.collateral_amount.as_nat() as int / (LIQUIDATION_BONUS_DIVISOR as int)) as nat,
        ),
        health_factor_milli: p.health_factor_milli,
    }
}

/// The first position, in oracle order, that is worth liquidating.
pub open spec fn spec_liquidation_from_positions(
    positions: Seq<LendingPosition>,
    gas_cost: U256,
) -> Option<MEVOpportunity>
    decreases positions.len(),
{
    if positions.len() == 0 {
        None
    } else if spec_liq_candidate(positions[0], gas_cost) {
        Some(spec_liq_opportunity(positions[0]))
    } else {
        spec_liquidation_from_positions(positions.drop_first(), gas_cost)
    }
}

/// Scans open positions in oracle order and yields the first profitable
/// liquidation.
pub fn liquidation_from_positions(positions: &Vec<LendingPosition>, gas_cost: U256) -> (r:
    Option<MEVOpportunity>)
    ensures
        r == spec_liquidation_from_positions(positions@, gas_cost),
{
    let mut i: usize = 0;
    proof {
        assert(positions@.skip(0) =~= positions@);
    }
    while i < positions.len()
        invariant
            i <= positions.len(),
            spec_liquidation_from_positions(positions@, gas_cost)
                == spec_liquidation_from_positions(positions@.skip(i as int), gas_cost),
        decreases positions.len() - i,
    {
        let p = positions[i];
        proof {
            assert(positions@.skip(i as int)[0] == positions@[i as int]);
        }
        let bonus = p.collateral_amount.div_small(LIQUIDATION_BONUS_DIVISOR);
        if p.health_factor_milli < HEALTH_FACTOR_LIQUIDATION_MILLI && bonus.gt(&gas_cost) {
            proof {
                lemma_canonical_limbs(bonus);
            }
            return Some(
                MEVOpportunity::Liquidation {
                    protocol: p.protocol,
                    position_owner: p.owner,
                    collateral_token: p.collateral_token,
                    debt_token: p.debt_token,
                    collateral_amount: p.collateral_amount,
                    debt_amount: p.debt_amount,
                    liquidation_bonus_eth: bonus,
                    health_factor_milli: p.health_factor_milli,
                },
            );
        }
        proof {
            assert(positions@.skip(i as int).drop_first() =~= positions@.skip(i as int + 1));
        }
        i = i + 1;
    }
    proof {
        assert(positions@.skip(positions@.len() as int).len() == 0);
    }
    None
}

/// What liquidation detection yields from the position oracle's report.
pub open spec fn spec_detect_liquidation() -> Option<MEVOpportunity> {
    spec_liquidation_from_positions(
        spec_mock_positions(),
        U256::spec_from_nat(LIQUIDATION_GAS_COST_WEI as nat),
    )
}

/// Runs the liquidation strategy; independent of the current transaction.
pub fn detect_liquidation_opportunity() -> (r: Option<MEVOpportunity>)
    ensures
        r == spec_detect_liquidation(),
{
    let positions = get_mock_liquidation_positions();
    let gas_cost = estimate_liquidation_gas_cost();
    liquidation_from_positions(&positions, gas_cost)
}

/// Profit net of each strategy's own gas estimate, used for ranking.
pub open spec fn spec_net_profit(op: MEVOpportunity) -> nat {
    match op {
        MEVOpportunity::Arbitrage { net_profit_eth, .. } => net_profit_eth.as_nat(),
        MEVOpportunity::Sandwich { estimated_profit_eth, gas_cost_eth, .. } => if
            estimated_profit_eth.as_nat() > gas_cost_eth.as_nat() {
            (estimated_profit_eth.as_nat() - gas_cost_eth.as_nat()) as nat
        } else {
            0
        },
        MEVOpportunity::Liquidation { liquidation_bonus_eth, .. } => if
            liquidation_bonus_eth.as_nat() > LIQUIDATION_GAS_COST_WEI {
            (liquidation_bonus_eth.as_nat() - LIQUIDATION_GAS_COST_WEI) as nat
        } else {
            0
        },
    }
}

/// Net profit of an opportunity after its strategy's gas estimate.
pub fn calculate_net_profit(opportunity: &MEVOpportunity) -> (r: U256)
    ensures
        r.as_nat() == spec_net_profit(*opportunity),
{
    match *opportunity {
        MEVOpportunity::Arbitrage { net_profit_eth, .. } => net_profit_eth,
        MEVOpportunity::Sandwich { estimated_profit_eth, gas_cost_eth, .. } => {
            if estimated_profit_eth.gt(&gas_cost_eth) {
                estimated_profit_eth.checked_sub(&gas_cost_eth).unwrap()
            } else {
                U256::zero()
            }
        },
        MEVOpportunity::Liquidation { liquidation_bonus_eth, .. } => {
            let gas_cost = estimate_liquidation_gas_cost();
            if liquidation_bonus_eth.gt(&gas_cost) {
                liquidation_bonus_eth.checked_sub(&gas_cost).unwrap()
            } else {
                U256::zero()
            }
        },
    }
}

/// Index of the first candidate whose net profit is greatest.
pub open spec fn first_best_idx(opps: Seq<MEVOpportunity>) -> int
    decreases opps.len(),
{
    if opps.len() <= 1 {
        0
    } else {
        let m = first_best_idx(opps.drop_last());
        if spec_net_profit(opps[opps.len() - 1]) > spec_net_profit(opps[m]) {
            opps.len() - 1
        } else {
            m
        }
    }
}

/// The selected opportunity: the first of those with maximal net profit,
/// so equal scores fall back to strategy declaration order.
pub open spec fn spec_select_best(opps: Seq<MEVOpportunity>) -> Option<MEVOpportunity> {
    if opps.len() == 0 {
        None
    } else {
        Some(opps[first_best_idx(opps)])
    }
}

/// The selected index is in range, maximal, and earliest among maxima.
pub proof fn lemma_first_best_idx_props(opps: Seq<MEVOpportunity>)
    requires
        opps.len() > 0,
    ensures
        0 <= first_best_idx(opps) < opps.len(),
        forall|j: int|
            0 <= j < opps.len() ==> spec_net_profit(opps[first_best_idx(opps)])
                >= spec_net_profit(#[trigger] opps[j]),
        forall|j: int|
            0 <= j < first_best_idx(opps) ==> spec_net_profit(#[trigger] opps[j])
                < spec_net_profit(opps[first_best_idx(opps)]),
    decreases opps.len(),
{
    if opps.len() > 1 {
        lemma_first_best_idx_props(opps.drop_last());
        assert(forall|j: int| 0 <= j < opps.len() - 1 ==> opps.drop_last()[j] == #[trigger] opps[j]);
    }
}

/// Picks the most profitable candidate; ties go to the earliest.
pub fn select_best_opportunity(opportunities: Vec<MEVOpportunity>) -> (r: Option<
    MEVOpportunity,
>)
    ensures
        r == spec_select_best(opportunities@),
{
    if opportunities.len() == 0 {
        return None;
    }
    let mut best: usize = 0;
    let mut best_net = calculate_net_profit(&opportunities[0]);
    let mut i: usize = 1;
    proof {
        assert(opportunities@.take(1).len() == 1);
    }
    while i < opportunities.len()
        invariant
            1 <= i <= opportunities.len(),
            best < i,
            best == first_best_idx(opportunities@.take(i as int)),
            best_net.as_nat() == spec_net_profit(opportunities@[best as int]),
        decreases opportunities.len() - i,
    {
        proof {
            assert(opportunities@.take(i + 1).drop_last() =~= opportunities@.take(i as int));
        }
        let net = calculate_net_profit(&opportunities[i]);
        if net.gt(&best_net) {
            best = i;
            best_net = net;
        }
        i = i + 1;
    }
    proof {
        assert(opportunities@.take(opportunities@.len() as int) =~= opportunities@);
    }
    Some(opportunities[best])
}

/// Appends an optional candidate.
pub open spec fn spec_push_opt(
    s: Seq<MEVOpportunity>,
    o: Option<MEVOpportunity>,
) -> Seq<MEVOpportunity> {
    match o {
        Some(x) => s.push(x),
        None => s,
    }
}

/// The candidate list for one transaction, in strategy declaration order:
/// arbitrage, then sandwich, then liquidation.
pub open spec fn spec_candidates(tx: PendingTransaction) -> Seq<MEVOpportunity> {
    let t = spec_decode(tx.input@, tx.to);
    spec_push_opt(
        spec_push_opt(
            spec_push_opt(Seq::empty(), spec_detect_arbitrage(t)),
            spec_detect_sandwich(tx.hash, tx.gas_price, t),
        ),
        spec_detect_liquidation(),
    )
}

/// What evaluation yields: the best-scoring candidate of the three
/// strategies, or nothing.
pub open spec fn spec_evaluate(tx: PendingTransaction) -> Option<MEVOpportunity> {
    spec_select_best(spec_candidates(tx))
}

/// Analyses one pending transaction and yields the most profitable
/// opportunity it presents, if any.
pub fn evaluate_opportunity(tx: &PendingTransaction) -> (r: Option<MEVOpportunity>)
    ensures
        r == spec_evaluate(*tx),
{
    let tx_type = decode_transaction_type(tx);
    let mut opportunities: Vec<MEVOpportunity> = Vec::new();
    if let Some(arb) = detect_arbitrage(tx, &tx_type) {
        opportunities.push(arb);
    }
    if let Some(sandwich) = detect_sandwich_opportunity(tx, &tx_type) {
        opportunities.push(sandwich);
    }
    if let Some(liq) = detect_liquidation_opportunity() {
        opportunities.push(liq);
    }
    proof {
        assert(opportunities@ =~= spec_candidates(*tx));
    }
    select_best_opportunity(opportunities)
}

/// Calldata shorter than one selector always classifies as `Unknown`.
pub proof fn lemma_short_input_is_unknown(input: Seq<u8>, to: Option<Address>)
    requires
        input.len() < 4,
    ensures
        spec_decode(input, to) == TxType::Unknown,
{
}

/// Below the minimum trade size the arbitrage strategy yields nothing,
/// whatever the venue prices and the gas estimate.
pub proof fn lemma_small_swap_no_arbitrage(
    token_a: Address,
    token_b: Address,
    amount_in: U256,
    prices: Seq<(DEX, U256)>,
    gas_cost: U256,
)
    requires
        amount_in.as_nat() < ARBITRAGE_MIN_TRADE_WEI,
    ensures
        spec_arbitrage_from_prices(token_a, token_b, amount_in, prices, gas_cost) is None,
{
}

/// The arbitrage strategy buys where the price is minimal and sells where
/// it is maximal, the first such venue each time; when the minimum and the
/// maximum coincide it yields nothing.
pub proof fn lemma_arbitrage_extremes(
    token_a: Address,
    token_b: Address,
    amount_in: U256,
    prices: Seq<(DEX, U256)>,
    gas_cost: U256,
)
    requires
        prices.len() > 0,
    ensures
        forall|j: int|
            0 <= j < prices.len() ==> price_of(prices, first_min_idx(prices))
                <= #[trigger] price_of(prices, j),
        forall|j: int|
            0 <= j < prices.len() ==> price_of(prices, first_max_idx(prices))
                >= #[trigger] price_of(prices, j),
        spec_arbitrage_from_prices(token_a, token_b, amount_in, prices, gas_cost) matches Some(
            op,
        ) ==> (op matches MEVOpportunity::Arbitrage { buy_dex, sell_dex, .. } && buy_dex
            == prices[first_min_idx(prices)].0 && sell_dex == prices[first_max_idx(prices)].0),
        price_of(prices, first_min_idx(prices)) == price_of(prices, first_max_idx(prices))
            ==> spec_arbitrage_from_prices(token_a, token_b, amount_in, prices, gas_cost) is None,
{
    lemma_first_min_idx_props(prices);
    lemma_first_max_idx_props(prices);
}

/// A yielded sandwich frontruns exactly a tenth of the victim's amount, in
/// integer division, and backruns exactly 105% of the frontrun.
pub proof fn lemma_sandwich_amounts(
    victim_hash: U256,
    gas_price: nat,
    token_in: Address,
    token_out: Address,
    amount_in: U256,
)
    ensures
        spec_sandwich_for_swap(victim_hash, gas_price, token_in, token_out, amount_in) matches Some(
            op,
        ) ==> (op matches MEVOpportunity::Sandwich { victim_amount_in, frontrun_amount, backrun_amount, .. }
            && victim_amount_in == amount_in
            && frontrun_amount.as_nat() == amount_in.as_nat() as int / (FRONTRUN_DIVISOR as int)
            && backrun_amount.as_nat() == frontrun_amount.as_nat() * BACKRUN_NUMERATOR / (
        BACKRUN_DENOMINATOR as int)),
{
    let amt = amount_in.as_nat() as int;
    let fr = amt / (FRONTRUN_DIVISOR as int);
    if amt >= SANDWICH_MIN_TRADE_WEI as int && gas_price <= SANDWICH_MAX_GAS_PRICE_WEI as nat
        && fr * (BACKRUN_NUMERATOR as int) < crate::uint256::b256() as int {
        vstd::arithmetic::div_mod::lemma_div_is_ordered_by_denominator(amt, 1, 10);
        crate::uint256::lemma_from_nat_as_nat(fr as nat);
        let br = fr * (BACKRUN_NUMERATOR as int) / (BACKRUN_DENOMINATOR as int);
        vstd::arithmetic::div_mod::lemma_div_nonincreasing(
            fr * (BACKRUN_NUMERATOR as int),
            BACKRUN_DENOMINATOR as int,
        );
        crate::uint256::lemma_from_nat_as_nat(br as nat);
    }
}

/// A liquidation opportunity is never yielded for a position whose health
/// factor is at or above one: anything yielded is built from an eligible
/// position of the list, and carries its health factor, below one.
pub proof fn lemma_no_liquidation_when_healthy(
    positions: Seq<LendingPosition>,
    gas_cost: U256,
)
    ensures
        spec_liquidation_from_positions(positions, gas_cost) matches Some(op) ==> ((op
            matches MEVOpportunity::Liquidation { health_factor_milli, .. } && health_factor_milli
            < HEALTH_FACTOR_LIQUIDATION_MILLI) && exists|i: int|
            0 <= i < positions.len() && spec_liq_candidate(#[trigger] positions[i], gas_cost) && op
                == spec_liq_opportunity(positions[i])),
    decreases positions.len(),
{
    if positions.len() > 0 && !spec_liq_candidate(positions[0], gas_cost) {
        lemma_no_liquidation_when_healthy(positions.drop_first(), gas_cost);
        if spec_liquidation_from_positions(positions, gas_cost) is Some {
            let tail = positions.drop_first();
            let j = choose|j: int|
                0 <= j < tail.len() && spec_liq_candidate(#[trigger] tail[j], gas_cost)
                    && spec_liquidation_from_positions(positions, gas_cost) == Some(
                    spec_liq_opportunity(tail[j]),
                );
            assert(positions[j + 1] == tail[j]);
        }
    }
}

/// An `Unknown` classification never yields a transaction-bound
/// opportunity, whatever the transaction's other fields.
pub proof fn lemma_unknown_yields_nothing(victim_hash: U256, gas_price: Option<U256>)
    ensures
        spec_detect_arbitrage(TxType::Unknown) is None,
        spec_detect_sandwich(victim_hash, gas_price, TxType::Unknown) is None,
{
}

} // verus!
