//! Bundle construction and relay submission: turns one opportunity into an
//! ordered sequence of transaction legs, validates it, and walks the relay
//! list in priority order until one submission succeeds.

use vstd::prelude::*;
use vstd::string::StringExecFns;
use crate::addr::{
    aave_pool, compound_comptroller, spec_aave_pool, spec_compound_comptroller,
    spec_sushiswap_router, spec_uniswap_v2_router, spec_uniswap_v3_router, sushiswap_router,
    uniswap_v2_router, uniswap_v3_router, Address,
};
use crate::searcher::{MEVOpportunity, Protocol, DEX};
use crate::text::{spec_dec_digits, str_eq, u64_to_dec_string};
use crate::uint256::{be_bytes_nat, lemma_canonical_limbs, U256};

verus! {

/// The chain head the builder targets; stands in for an RPC query.
pub const CURRENT_BLOCK_NUMBER: u64 = 18_500_000;

/// Base gas price of the pricing model: 20 gwei.
pub const BASE_GAS_PRICE_WEI: u128 = 20_000_000_000;

/// Priority fee of the pricing model: 5 gwei.
pub const PRIORITY_FEE_WEI: u128 = 5_000_000_000;

/// Gas limit given to each swap leg.
pub const SWAP_LEG_GAS: u64 = 200_000;

/// Gas limit given to the flash-loan draw leg.
pub const FLASH_LOAN_LEG_GAS: u64 = 300_000;

/// Gas limit given to the liquidation call leg.
pub const LIQUIDATION_LEG_GAS: u64 = 400_000;

/// Gas limit given to the flash-loan repayment leg.
pub const REPAY_LEG_GAS: u64 = 100_000;

/// Estimated total gas recorded on a two-swap arbitrage bundle.
pub const ARBITRAGE_BUNDLE_GAS: u64 = 400_000;

/// Estimated total gas recorded on a sandwich bundle.
pub const SANDWICH_BUNDLE_GAS: u64 = 500_000;

/// Estimated total gas recorded on a liquidation bundle.
pub const LIQUIDATION_BUNDLE_GAS: u64 = 600_000;

/// Ceiling on the summed leg gas of one bundle.
pub const BLOCK_GAS_LIMIT: u64 = 12_000_000;

/// One transaction leg: target, payload, value and gas terms.
#[derive(Clone, Debug)]
pub struct TransactionRequest {
    pub to: Option<Address>,
    pub data: Option<Vec<u8>>,
    pub gas: Option<U256>,
    pub gas_price: Option<U256>,
    pub value: Option<U256>,
}

impl Default for TransactionRequest {
    /// A leg with every field unset.
    fn default() -> (r: TransactionRequest)
        ensures
            r.to is None,
            r.data is None,
            r.gas is None,
            r.gas_price is None,
            r.value is None,
    {
        TransactionRequest { to: None, data: None, gas: None, gas_price: None, value: None }
    }
}

/// An ordered bundle ready for validation and submission. Leg order is
/// execution order and is never reordered downstream.
#[derive(Clone, Debug)]
pub struct MEVBundle {
    /// Legs in execution order.
    pub transactions: Vec<TransactionRequest>,
    /// Block the bundle targets: always the next one.
    pub target_block: u64,
    /// Earliest timestamp at which the bundle is valid.
    pub min_timestamp: Option<U256>,
    /// Latest timestamp at which the bundle is valid.
    pub max_timestamp: Option<U256>,
    /// Identifier for tracking.
    pub bundle_id: String,
    /// Estimated total gas.
    pub total_gas: U256,
    /// Expected profit in wei.
    pub expected_profit: U256,
}

/// Status a relay reports for a submitted bundle.
#[derive(Clone, Copy, Debug, PartialEq, Eq, Structural)]
pub enum SubmissionStatus {
    Submitted,
    Included,
    Failed,
    Expired,
    Reverted,
}

/// The outcome of one successful submission attempt.
#[derive(Clone, Debug)]
pub struct SubmissionResult {
    pub bundle_hash: String,
    pub status: SubmissionStatus,
    pub relay: String,
    pub block_number: Option<u64>,
    /// Estimated inclusion probability in basis points; 10000 is certainty.
    pub inclusion_probability_bps: Option<u32>,
}

/// One relay endpoint: order in the relay list is submission priority.
#[derive(Clone, Debug)]
pub struct RelayConfig {
    pub name: String,
    pub endpoint: String,
    pub signing_key: Option<String>,
    pub enabled: bool,
}

/// Why a bundle could not be built.
#[derive(Clone, Copy, Debug, PartialEq, Eq, Structural)]
pub enum BuildError {
    /// A swap leg was routed to a venue the builder does not recognise.
    UnsupportedVenue,
    /// A liquidation was routed to a protocol the builder does not recognise.
    UnsupportedProtocol,
    /// The opportunity variant does not match the requested bundle shape.
    InvalidOpportunityShape,
}

/// Why a bundle was rejected before submission.
#[derive(Clone, Copy, Debug, PartialEq, Eq, Structural)]
pub enum ValidationError {
    /// The bundle has no legs.
    EmptyBundle,
    /// The expected profit is zero.
    NonPositiveProfit,
    /// The summed leg gas exceeds the block gas ceiling.
    GasLimitExceeded,
}

/// The aggregate error raised when every enabled relay has failed.
#[derive(Clone, Debug)]
pub struct AllRelaysFailed {
    /// The bundle whose submission was exhausted.
    pub bundle_id: String,
}

/// Everything that can stop the build-validate-submit pipeline.
#[derive(Clone, Debug)]
pub enum BundleError {
    Build(BuildError),
    Validation(ValidationError),
    Submission(AllRelaysFailed),
}

/// A `bundle_` prefix followed by a decimal timestamp.
pub open spec fn spec_is_bundle_id(s: Seq<char>) -> bool {
    exists|t: u64| s == "bundle_"@ + spec_dec_digits(t as nat)
}

/// Relies on std::time::SystemTime::now for the seconds since the Unix
/// epoch; a clock before the epoch reads as zero.
#[verifier::external_body]
fn unix_timestamp_secs() -> u64 {
    match std::time::SystemTime::now().duration_since(std::time::UNIX_EPOCH) {
        Ok(d) => d.as_secs(),
        Err(_) => 0,
    }
}

/// A fresh tracking identifier: `bundle_` and the current Unix time.
pub fn generate_bundle_id() -> (r: String)
    ensures
        spec_is_bundle_id(r@),
{
    let timestamp = unix_timestamp_secs();
    let digits = u64_to_dec_string(timestamp);
    let r = String::from_str("bundle_").concat(digits.as_str());
    proof {
        assert(r@ == "bundle_"@ + spec_dec_digits(timestamp as nat));
    }
    r
}

/// The chain head; stands in for an RPC query to the node.
pub fn get_current_block_number() -> (r: u64)
    ensures
        r == CURRENT_BLOCK_NUMBER,
{
    CURRENT_BLOCK_NUMBER
}

/// The gas price every leg carries: a fixed base plus a priority fee,
/// parameterised only by the target block.
pub fn calculate_optimal_gas_price(_target_block: u64) -> (r: U256)
    ensures
        r == U256::spec_from_nat((BASE_GAS_PRICE_WEI + PRIORITY_FEE_WEI) as nat),
{
    let r = U256::from_u128(BASE_GAS_PRICE_WEI + PRIORITY_FEE_WEI);
    proof {
        lemma_canonical_limbs(r);
    }
    r
}

/// The notional routed through each arbitrage leg: a tenth of the
/// opportunity's gross profit; other variants fall back to one native unit.
pub fn calculate_optimal_swap_amount(opportunity: &MEVOpportunity) -> (r: U256)
    ensures
        match *opportunity {
            MEVOpportunity::Arbitrage { profit_eth, .. } => r.as_nat() == profit_eth.as_nat()
                as int / 10,
            _ => r.as_nat() == 1_000_000_000_000_000_000,
        },
{
    match *opportunity {
        MEVOpportunity::Arbitrage { profit_eth, .. } => profit_eth.div_small(10),
        _ => U256::from_u128(1_000_000_000_000_000_000),
    }
}

/// Appends `src` to `dst`.
fn append_bytes(dst: &mut Vec<u8>, src: &Vec<u8>)
    ensures
        final(dst)@ == old(dst)@ + src@,
{
    let mut i: usize = 0;
    proof {
        assert(dst@ =~= old(dst)@ + src@.take(0));
    }
    while i < src.len()
        invariant
            i <= src.len(),
            dst@ == old(dst)@ + src@.take(i as int),
        decreases src.len() - i,
    {
        dst.push(src[i]);
        proof {
            assert(old(dst)@ + src@.take(i as int) + seq![src@[i as int]] =~= old(dst)@
                + src@.take(i + 1));
        }
        i = i + 1;
    }
    proof {
        assert(src@.take(src@.len() as int) =~= src@);
    }
}

/// Appends `n` zero bytes to `dst`.
fn append_zero_bytes(dst: &mut Vec<u8>, n: usize)
    ensures
        final(dst)@.len() == old(dst)@.len() + n,
        forall|i: int| 0 <= i < old(dst)@.len() ==> final(dst)@[i] == old(dst)@[i],
        forall|i: int| old(dst)@.len() <= i < final(dst)@.len() ==> final(dst)@[i] == 0u8,
{
    let mut i: usize = 0;
    while i < n
        invariant
            i <= n,
            dst@.len() == old(dst)@.len() + i,
            forall|j: int| 0 <= j < old(dst)@.len() ==> dst@[j] == old(dst)@[j],
            forall|j: int| old(dst)@.len() <= j < dst@.len() ==> dst@[j] == 0u8,
        decreases n - i,
    {
        dst.push(0);
        i = i + 1;
    }
}

/// A swap payload for the constant-product router: its selector, the exact
/// 32-byte big-endian amount, and zero placeholders for the remaining
/// parameters.
pub open spec fn spec_v2_swap_payload(data: Seq<u8>, amount: U256) -> bool {
    &&& data.len() == 164
    &&& data[0] == 0x38u8
    &&& data[1] == 0xedu8
    &&& data[2] == 0x17u8
    &&& data[3] == 0x39u8
    &&& be_bytes_nat(data.subrange(4, 36)) == amount.as_nat()
    &&& forall|i: int| 36 <= i < 164 ==> data[i] == 0u8
}

/// A swap payload for the concentrated-liquidity router: its selector and a
/// zero placeholder for the parameter struct.
pub open spec fn spec_v3_swap_payload(data: Seq<u8>) -> bool {
    &&& data.len() == 164
    &&& data[0] == 0x41u8
    &&& data[1] == 0x4bu8
    &&& data[2] == 0xf3u8
    &&& data[3] == 0x89u8
    &&& forall|i: int| 4 <= i < 164 ==> data[i] == 0u8
}

/// A flash-loan draw payload: its selector and zero placeholders.
pub open spec fn spec_flash_loan_payload(data: Seq<u8>) -> bool {
    &&& data.len() == 228
    &&& data[0] == 0xabu8
    &&& data[1] == 0x9cu8
    &&& data[2] == 0x4bu8
    &&& data[3] == 0x5du8
    &&& forall|i: int| 4 <= i < 228 ==> data[i] == 0u8
}

/// A liquidation-call payload for the first protocol.
pub open spec fn spec_aave_liquidation_payload(data: Seq<u8>) -> bool {
    &&& data.len() == 164
    &&& data[0] == 0x00u8
    &&& data[1] == 0xa7u8
    &&& data[2] == 0x18u8
    &&& data[3] == 0xa9u8
    &&& forall|i: int| 4 <= i < 164 ==> data[i] == 0u8
}

/// A liquidation-call payload for the second protocol.
pub open spec fn spec_compound_liquidation_payload(data: Seq<u8>) -> bool {
    &&& data.len() == 100
    &&& data[0] == 0xf5u8
    &&& data[1] == 0xe3u8
    &&& data[2] == 0xc4u8
    &&& data[3] == 0x62u8
    &&& forall|i: int| 4 <= i < 100 ==> data[i] == 0u8
}

/// A repayment payload: the token-transfer selector and zero placeholders.
pub open spec fn spec_repay_payload(data: Seq<u8>) -> bool {
    &&& data.len() == 68
    &&& data[0] == 0xa9u8
    &&& data[1] == 0x05u8
    &&& data[2] == 0x9cu8
    &&& data[3] == 0xbbu8
    &&& forall|i: int| 4 <= i < 68 ==> data[i] == 0u8
}

/// Builds a selector followed by `tail` zero bytes.
fn encode_selector_and_zeros(s0: u8, s1: u8, s2: u8, s3: u8, tail: usize) -> (r: Vec<u8>)
    requires
        tail <= 1024,
    ensures
        r@.len() == 4 + tail,
        r@[0] == s0,
        r@[1] == s1,
        r@[2] == s2,
        r@[3] == s3,
        forall|i: int| 4 <= i < r@.len() ==> r@[i] == 0u8,
{
    let mut data: Vec<u8> = Vec::new();
    data.push(s0);
    data.push(s1);
    data.push(s2);
    data.push(s3);
    append_zero_bytes(&mut data, tail);
    data
}

/// Calldata for swapExactTokensForTokens: selector 0x38ed1739, the exact
/// amount in its 32-byte slot, and zeroed remaining parameters.
pub fn encode_uniswap_v2_swap(_token_in: Address, _token_out: Address, amount: U256) -> (r: Vec<
    u8,
>)
    ensures
        spec_v2_swap_payload(r@, amount),
{
    let mut data: Vec<u8> = Vec::new();
    data.push(0x38);
    data.push(0xed);
    data.push(0x17);
    data.push(0x39);
    let word = amount.to_be_bytes();
    append_bytes(&mut data, &word);
    let ghost with_word = data@;
    append_zero_bytes(&mut data, 128);
    proof {
        assert(forall|j: int| 0 <= j < 32 ==> with_word[4 + j] == word@[j]);
        assert(data@.subrange(4, 36) =~= word@);
    }
    data
}

/// Calldata for exactInputSingle: selector 0x414bf389 and a zeroed
/// parameter struct.
pub fn encode_uniswap_v3_swap(_token_in: Address, _token_out: Address, _amount: U256) -> (r: Vec<
    u8,
>)
    ensures
        spec_v3_swap_payload(r@),
{
    encode_selector_and_zeros(0x41, 0x4b, 0xf3, 0x89, 160)
}

/// The second constant-product venue shares the first one's interface.
pub fn encode_sushiswap_swap(token_in: Address, token_out: Address, amount: U256) -> (r: Vec<u8>)
    ensures
        spec_v2_swap_payload(r@, amount),
{
    encode_uniswap_v2_swap(token_in, token_out, amount)
}

/// Calldata for flashLoan: selector 0xab9c4b5d and zeroed parameters.
pub fn encode_aave_flash_loan(_token: Address, _amount: U256) -> (r: Vec<u8>)
    ensures
        spec_flash_loan_payload(r@),
{
    encode_selector_and_zeros(0xab, 0x9c, 0x4b, 0x5d, 224)
}

/// Calldata for liquidationCall: selector 0x00a718a9 and zeroed parameters.
pub fn encode_aave_liquidation(_user: Address, _collateral: Address, _debt: Address, _amount: U256)
    -> (r: Vec<u8>)
    ensures
        spec_aave_liquidation_payload(r@),
{
    encode_selector_and_zeros(0x00, 0xa7, 0x18, 0xa9, 160)
}

/// Calldata for liquidateBorrow: selector 0xf5e3c462 and zeroed parameters.
pub fn encode_compound_liquidation(
    _user: Address,
    _collateral: Address,
    _debt: Address,
    _amount: U256,
) -> (r: Vec<u8>)
    ensures
        spec_compound_liquidation_payload(r@),
{
    encode_selector_and_zeros(0xf5, 0xe3, 0xc4, 0x62, 96)
}

/// Calldata for the repayment transfer: selector 0xa9059cbb and zeroed
/// parameters.
pub fn encode_flash_loan_repay(_token: Address, _amount: U256) -> (r: Vec<u8>)
    ensures
        spec_repay_payload(r@),
{
    encode_selector_and_zeros(0xa9, 0x05, 0x9c, 0xbb, 64)
}

/// The venues the builder can route a swap to.
pub open spec fn spec_dex_supported(dex: DEX) -> bool {
    dex == DEX::UniswapV2 || dex == DEX::UniswapV3 || dex == DEX::SushiSwap
}

/// The router a supported venue's legs are sent to.
pub open spec fn spec_router_of(dex: DEX) -> Address {
    match dex {
        DEX::UniswapV2 => spec_uniswap_v2_router(),
        DEX::UniswapV3 => spec_uniswap_v3_router(),
        _ => spec_sushiswap_router(),
    }
}

/// A well-formed swap leg: routed to the venue's router, carrying the
/// venue's payload for `amount`, the shared gas terms, and native value
/// exactly when the input token is the zero address.
pub open spec fn spec_swap_leg(t: TransactionRequest, dex: DEX, token_in: Address, amount: U256)
    -> bool {
    &&& t.to == Some(spec_router_of(dex))
    &&& t.gas == Some(U256::spec_from_nat(SWAP_LEG_GAS as nat))
    &&& t.gas_price == Some(U256::spec_from_nat((BASE_GAS_PRICE_WEI + PRIORITY_FEE_WEI) as nat))
    &&& t.value == if token_in.as_nat() == 0 {
        Some(amount)
    } else {
        None::<U256>
    }
    &&& match t.data {
        Some(d) => if dex == DEX::UniswapV3 {
            spec_v3_swap_payload(d@)
        } else {
            spec_v2_swap_payload(d@, amount)
        },
        None => false,
    }
}

/// Builds one swap leg for a supported venue; unsupported venues fail
/// rather than default, since wrong routing burns gas on a revert.
pub fn create_dex_swap_transaction(
    dex: DEX,
    token_in: Address,
    token_out: Address,
    amount: U256,
    target_block: u64,
) -> (r: Result<TransactionRequest, BuildError>)
    ensures
        spec_dex_supported(dex) ==> (r matches Ok(t) && spec_swap_leg(t, dex, token_in, amount)),
        !spec_dex_supported(dex) ==> r == Err::<TransactionRequest, BuildError>(
            BuildError::UnsupportedVenue,
        ),
{
    let (to_address, call_data) = match dex {
        DEX::UniswapV2 => (uniswap_v2_router(), encode_uniswap_v2_swap(token_in, token_out, amount)),
        DEX::UniswapV3 => (uniswap_v3_router(), encode_uniswap_v3_swap(token_in, token_out, amount)),
        DEX::SushiSwap => (sushiswap_router(), encode_sushiswap_swap(token_in, token_out, amount)),
        _ => {
            return Err(BuildError::UnsupportedVenue);
        },
    };
    let gas = U256::from_u64(SWAP_LEG_GAS);
    proof {
        lemma_canonical_limbs(gas);
    }
    Ok(
        TransactionRequest {
            to: Some(to_address),
            data: Some(call_data),
            gas: Some(gas),
            gas_price: Some(calculate_optimal_gas_price(target_block)),
            value: if token_in.is_zero() {
                Some(amount)
            } else {
                None
            },
        },
    )
}

/// The frontrun leg of a sandwich: a swap on the primary venue.
pub fn create_frontrun_transaction(
    token_in: Address,
    token_out: Address,
    amount: U256,
    target_block: u64,
) -> (r: Result<TransactionRequest, BuildError>)
    ensures
        r matches Ok(t) && spec_swap_leg(t, DEX::UniswapV2, token_in, amount),
{
    create_dex_swap_transaction(DEX::UniswapV2, token_in, token_out, amount, target_block)
}

/// The backrun leg of a sandwich: the reverse swap on the same venue.
pub fn create_backrun_transaction(
    token_in: Address,
    token_out: Address,
    amount: U256,
    target_block: u64,
) -> (r: Result<TransactionRequest, BuildError>)
    ensures
        r matches Ok(t) && spec_swap_leg(t, DEX::UniswapV2, token_in, amount),
{
    create_dex_swap_transaction(DEX::UniswapV2, token_in, token_out, amount, target_block)
}

/// A well-formed flash-loan draw leg.
pub open spec fn spec_flash_loan_leg(t: TransactionRequest) -> bool {
    &&& t.to == Some(spec_aave_pool())
    &&& t.gas == Some(U256::spec_from_nat(FLASH_LOAN_LEG_GAS as nat))
    &&& t.gas_price == Some(U256::spec_from_nat((BASE_GAS_PRICE_WEI + PRIORITY_FEE_WEI) as nat))
    &&& t.value is None
    &&& match t.data {
        Some(d) => spec_flash_loan_payload(d@),
        None => false,
    }
}

/// The flash-loan draw that funds a liquidation.
pub fn create_flash_loan_transaction(token: Address, amount: U256, target_block: u64) -> (r:
    Result<TransactionRequest, BuildError>)
    ensures
        r matches Ok(t) && spec_flash_loan_leg(t),
{
    let call_data = encode_aave_flash_loan(token, amount);
    let gas = U256::from_u64(FLASH_LOAN_LEG_GAS);
    proof {
        lemma_canonical_limbs(gas);
    }
    Ok(
        TransactionRequest {
            to: Some(aave_pool()),
            data: Some(call_data),
            gas: Some(gas),
            gas_price: Some(calculate_optimal_gas_price(target_block)),
            value: None,
        },
    )
}

/// The protocols the builder can route a liquidation to.
pub open spec fn spec_protocol_supported(protocol: Protocol) -> bool {
    protocol == Protocol::Aave || protocol == Protocol::Compound
}

/// A well-formed liquidation-call leg for a supported protocol.
pub open spec fn spec_liquidation_leg(t: TransactionRequest, protocol: Protocol) -> bool {
    &&& t.to == Some(
        if protocol == Protocol::Aave {
            spec_aave_pool()
        } else {
            spec_compound_comptroller()
        },
    )
    &&& t.gas == Some(U256::spec_from_nat(LIQUIDATION_LEG_GAS as nat))
    &&& t.gas_price == Some(U256::spec_from_nat((BASE_GAS_PRICE_WEI + PRIORITY_FEE_WEI) as nat))
    &&& t.value is None
    &&& match t.data {
        Some(d) => if protocol == Protocol::Aave {
            spec_aave_liquidation_payload(d@)
        } else {
            spec_compound_liquidation_payload(d@)
        },
        None => false,
    }
}

/// Builds the liquidation call; unrecognised protocols fail rather than
/// default.
pub fn create_liquidation_transaction(
    protocol: Protocol,
    position_owner: Address,
    collateral_token: Address,
    debt_token: Address,
    debt_amount: U256,
    target_block: u64,
) -> (r: Result<TransactionRequest, BuildError>)
    ensures
        spec_protocol_supported(protocol) ==> (r matches Ok(t) && spec_liquidation_leg(
            t,
            protocol,
        )),
        !spec_protocol_supported(protocol) ==> r == Err::<TransactionRequest, BuildError>(
            BuildError::UnsupportedProtocol,
        ),
{
    let (contract_address, call_data) = match protocol {
        Protocol::Aave => (
            aave_pool(),
            encode_aave_liquidation(position_owner, collateral_token, debt_token, debt_amount),
        ),
        Protocol::Compound => (
            compound_comptroller(),
            encode_compound_liquidation(position_owner, collateral_token, debt_token, debt_amount),
        ),
        _ => {
            return Err(BuildError::UnsupportedProtocol);
        },
    };
    let gas = U256::from_u64(LIQUIDATION_LEG_GAS);
    proof {
        lemma_canonical_limbs(gas);
    }
    Ok(
        TransactionRequest {
            to: Some(contract_address),
            data: Some(call_data),
            gas: Some(gas),
            gas_price: Some(calculate_optimal_gas_price(target_block)),
            value: None,
        },
    )
}

/// A well-formed flash-loan repayment leg: a transfer on the token itself.
pub open spec fn spec_repay_leg(t: TransactionRequest, token: Address) -> bool {
    &&& t.to == Some(token)
    &&& t.gas == Some(U256::spec_from_nat(REPAY_LEG_GAS as nat))
    &&& t.gas_price == Some(U256::spec_from_nat((BASE_GAS_PRICE_WEI + PRIORITY_FEE_WEI) as nat))
    &&& t.value is None
    &&& match t.data {
        Some(d) => spec_repay_payload(d@),
        None => false,
    }
}

/// The repayment that closes the flash loan after the liquidation.
pub fn create_flash_loan_repay_transaction(token: Address, amount: U256, target_block: u64) -> (r:
    Result<TransactionRequest, BuildError>)
    ensures
        r matches Ok(t) && spec_repay_leg(t, token),
{
    let call_data = encode_flash_loan_repay(token, amount);
    let gas = U256::from_u64(REPAY_LEG_GAS);
    proof {
        lemma_canonical_limbs(gas);
    }
    Ok(
        TransactionRequest {
            to: Some(token),
            data: Some(call_data),
            gas: Some(gas),
            gas_price: Some(calculate_optimal_gas_price(target_block)),
            value: None,
        },
    )
}

/// Everything every bundle shares: next-block targeting, no validity
/// window, a tracking identifier, and its gas and profit figures.
pub open spec fn spec_common_bundle(b: MEVBundle, expected_profit: U256, total_gas: nat) -> bool {
    &&& b.target_block == CURRENT_BLOCK_NUMBER + 1
    &&& b.min_timestamp is None
    &&& b.max_timestamp is None
    &&& spec_is_bundle_id(b.bundle_id@)
    &&& b.total_gas == U256::spec_from_nat(total_gas)
    &&& b.expected_profit == expected_profit
}

/// Builds the two-leg bundle that captures an arbitrage: buy at the cheap
/// venue, sell at the dear one, both sized to a tenth of the gross profit.
pub fn create_arbitrage_bundle(opportunity: MEVOpportunity) -> (r: Result<MEVBundle, BuildError>)
    ensures
        match opportunity {
            MEVOpportunity::Arbitrage {
                token_a,
                token_b,
                buy_dex,
                sell_dex,
                profit_eth,
                net_profit_eth,
                ..
            } => {
                if spec_dex_supported(buy_dex) && spec_dex_supported(sell_dex) {
                    &&& r matches Ok(b)
                    &&& spec_common_bundle(b, net_profit_eth, ARBITRAGE_BUNDLE_GAS as nat)
                    &&& b.transactions@.len() == 2
                    &&& spec_swap_leg(
                        b.transactions@[0],
                        buy_dex,
                        token_a,
                        U256::spec_from_nat((profit_eth.as_nat() as int / 10) as nat),
                    )
                    &&& spec_swap_leg(
                        b.transactions@[1],
                        sell_dex,
                        token_b,
                        U256::spec_from_nat((profit_eth.as_nat() as int / 10) as nat),
                    )
                } else {
                    r == Err::<MEVBundle, BuildError>(BuildError::UnsupportedVenue)
                }
            },
            _ => r == Err::<MEVBundle, BuildError>(BuildError::InvalidOpportunityShape),
        },
{
    if let MEVOpportunity::Arbitrage { token_a, token_b, buy_dex, sell_dex, net_profit_eth, .. } =
        opportunity {
        let current_block = get_current_block_number();
        let target_block = current_block + 1;
        let amount = calculate_optimal_swap_amount(&opportunity);
        proof {
            lemma_canonical_limbs(amount);
        }
        let buy_tx = match create_dex_swap_transaction(
            buy_dex,
            token_a,
            token_b,
            amount,
            target_block,
        ) {
            Ok(t) => t,
            Err(e) => {
                return Err(e);
            },
        };
        let sell_tx = match create_dex_swap_transaction(
            sell_dex,
            token_b,
            token_a,
            amount,
            target_block,
        ) {
            Ok(t) => t,
            Err(e) => {
                return Err(e);
            },
        };
        let mut transactions: Vec<TransactionRequest> = Vec::new();
        transactions.push(buy_tx);
        transactions.push(sell_tx);
        let total_gas = U256::from_u64(ARBITRAGE_BUNDLE_GAS);
        proof {
            lemma_canonical_limbs(total_gas);
        }
        Ok(
            MEVBundle {
                transactions,
                target_block,
                min_timestamp: None,
                max_timestamp: None,
                bundle_id: generate_bundle_id(),
                total_gas,
                expected_profit: net_profit_eth,
            },
        )
    } else {
        Err(BuildError::InvalidOpportunityShape)
    }
}

/// Builds the two legs that bracket a victim swap: the frontrun buy and the
/// backrun sell. The victim's own transaction is never constructed here; it
/// sits between the legs by relay-level bundle ordering.
pub fn create_sandwich_bundle(opportunity: MEVOpportunity) -> (r: Result<MEVBundle, BuildError>)
    ensures
        match opportunity {
            MEVOpportunity::Sandwich {
                token_in,
                token_out,
                frontrun_amount,
                backrun_amount,
                estimated_profit_eth,
                ..
            } => {
                &&& r matches Ok(b)
                &&& spec_common_bundle(b, estimated_profit_eth, SANDWICH_BUNDLE_GAS as nat)
                &&& b.transactions@.len() == 2
                &&& spec_swap_leg(b.transactions@[0], DEX::UniswapV2, token_in, frontrun_amount)
                &&& spec_swap_leg(b.transactions@[1], DEX::UniswapV2, token_out, backrun_amount)
            },
            _ => r == Err::<MEVBundle, BuildError>(BuildError::InvalidOpportunityShape),
        },
{
    if let MEVOpportunity::Sandwich {
        token_in,
        token_out,
        frontrun_amount,
        backrun_amount,
        estimated_profit_eth,
        ..
    } = opportunity {
        let current_block = get_current_block_number();
        let target_block = current_block + 1;
        let frontrun_tx = match create_frontrun_transaction(
            token_in,
            token_out,
            frontrun_amount,
            target_block,
        ) {
            Ok(t) => t,
            Err(e) => {
                return Err(e);
            },
        };
        let backrun_tx = match create_backrun_transaction(
            token_out,
            token_in,
            backrun_amount,
            target_block,
        ) {
            Ok(t) => t,
            Err(e) => {
                return Err(e);
            },
        };
        let mut transactions: Vec<TransactionRequest> = Vec::new();
        transactions.push(frontrun_tx);
        transactions.push(backrun_tx);
        let total_gas = U256::from_u64(SANDWICH_BUNDLE_GAS);
        proof {
            lemma_canonical_limbs(total_gas);
        }
        Ok(
            MEVBundle {
                transactions,
                target_block,
                min_timestamp: None,
                max_timestamp: None,
                bundle_id: generate_bundle_id(),
                total_gas,
                expected_profit: estimated_profit_eth,
            },
        )
    } else {
        Err(BuildError::InvalidOpportunityShape)
    }
}

/// Builds the three-leg liquidation bundle in its fixed order: draw the
/// flash loan, liquidate, repay — any other order reverts on chain.
pub fn create_liquidation_bundle(opportunity: MEVOpportunity) -> (r: Result<
    MEVBundle,
    BuildError,
>)
    ensures
        match opportunity {
            MEVOpportunity::Liquidation {
                protocol,
                debt_token,
                liquidation_bonus_eth,
                ..
            } => {
                if spec_protocol_supported(protocol) {
                    &&& r matches Ok(b)
                    &&& spec_common_bundle(b, liquidation_bonus_eth, LIQUIDATION_BUNDLE_GAS as nat)
                    &&& b.transactions@.len() == 3
                    &&& spec_flash_loan_leg(b.transactions@[0])
                    &&& spec_liquidation_leg(b.transactions@[1], protocol)
                    &&& spec_repay_leg(b.transactions@[2], debt_token)
                } else {
                    r == Err::<MEVBundle, BuildError>(BuildError::UnsupportedProtocol)
                }
            },
            _ => r == Err::<MEVBundle, BuildError>(BuildError::InvalidOpportunityShape),
        },
{
    if let MEVOpportunity::Liquidation {
        protocol,
        position_owner,
        collateral_token,
        debt_token,
        debt_amount,
        liquidation_bonus_eth,
        ..
    } = opportunity {
        let current_block = get_current_block_number();
        let target_block = current_block + 1;
        let flash_loan_tx = match create_flash_loan_transaction(
            debt_token,
            debt_amount,
            target_block,
        ) {
            Ok(t) => t,
            Err(e) => {
                return Err(e);
            },
        };
        let liquidation_tx = match create_liquidation_transaction(
            protocol,
            position_owner,
            collateral_token,
            debt_token,
            debt_amount,
            target_block,
        ) {
            Ok(t) => t,
            Err(e) => {
                return Err(e);
            },
        };
        let repay_tx = match create_flash_loan_repay_transaction(
            debt_token,
            debt_amount,
            target_block,
        ) {
            Ok(t) => t,
            Err(e) => {
                return Err(e);
            },
        };
        let mut transactions: Vec<TransactionRequest> = Vec::new();
        transactions.push(flash_loan_tx);
        transactions.push(liquidation_tx);
        transactions.push(repay_tx);
        let total_gas = U256::from_u64(LIQUIDATION_BUNDLE_GAS);
        proof {
            lemma_canonical_limbs(total_gas);
        }
        Ok(
            MEVBundle {
                transactions,
                target_block,
                min_timestamp: None,
                max_timestamp: None,
                bundle_id: generate_bundle_id(),
                total_gas,
                expected_profit: liquidation_bonus_eth,
            },
        )
    } else {
        Err(BuildError::InvalidOpportunityShape)
    }
}

/// The gas a leg declares; an unset limit counts as zero.
pub open spec fn spec_leg_gas(t: TransactionRequest) -> nat {
    match t.gas {
        Some(g) => g.as_nat(),
        None => 0,
    }
}

/// The summed declared gas of a leg sequence.
pub open spec fn spec_gas_sum(legs: Seq<TransactionRequest>) -> nat
    decreases legs.len(),
{
    if legs.len() == 0 {
        0
    } else {
        spec_gas_sum(legs.drop_last()) + spec_leg_gas(legs.last())
    }
}

/// A prefix never sums to more than the whole.
pub proof fn lemma_gas_sum_prefix(legs: Seq<TransactionRequest>, j: int)
    requires
        0 <= j <= legs.len(),
    ensures
        spec_gas_sum(legs.take(j)) <= spec_gas_sum(legs),
    decreases legs.len(),
{
    if j < legs.len() {
        assert(legs.drop_last().take(j) =~= legs.take(j));
        lemma_gas_sum_prefix(legs.drop_last(), j);
    } else {
        assert(legs.take(j) =~= legs);
    }
}

/// Rejects a bundle that must not reach a relay: no legs, no expected
/// profit, or more summed leg gas than a block can hold.
pub fn validate_bundle(bundle: &MEVBundle) -> (r: Result<(), ValidationError>)
    ensures
        bundle.transactions@.len() == 0 ==> r == Err::<(), ValidationError>(
            ValidationError::EmptyBundle,
        ),
        bundle.transactions@.len() > 0 && bundle.expected_profit.as_nat() == 0 ==> r == Err::<
            (),
            ValidationError,
        >(ValidationError::NonPositiveProfit),
        bundle.transactions@.len() > 0 && bundle.expected_profit.as_nat() > 0 ==> r == if
            spec_gas_sum(bundle.transactions@) > BLOCK_GAS_LIMIT {
            Err::<(), ValidationError>(ValidationError::GasLimitExceeded)
        } else {
            Ok::<(), ValidationError>(())
        },
{
    if bundle.transactions.len() == 0 {
        return Err(ValidationError::EmptyBundle);
    }
    if bundle.expected_profit.is_zero() {
        return Err(ValidationError::NonPositiveProfit);
    }
    let mut total = U256::zero();
    let mut i: usize = 0;
    proof {
        assert(bundle.transactions@.take(0).len() == 0);
    }
    while i < bundle.transactions.len()
        invariant
            i <= bundle.transactions@.len(),
            bundle.transactions@.len() > 0,
            bundle.expected_profit.as_nat() != 0,
            total.as_nat() == spec_gas_sum(bundle.transactions@.take(i as int)),
        decreases bundle.transactions@.len() - i,
    {
        let leg = &bundle.transactions[i];
        let leg_gas = match &leg.gas {
            Some(g) => *g,
            None => U256::zero(),
        };
        proof {
            assert(bundle.transactions@.take(i + 1).drop_last() =~= bundle.transactions@.take(
                i as int,
            ));
            assert(bundle.transactions@.take(i + 1).last() == bundle.transactions@[i as int]);
        }
        total = match total.checked_add(&leg_gas) {
            Some(t) => t,
            None => {
                proof {
                    lemma_gas_sum_prefix(bundle.transactions@, i + 1);
                    assert(spec_gas_sum(bundle.transactions@.take(i + 1)) == total.as_nat()
                        + spec_leg_gas(bundle.transactions@[i as int]));
                    assert(spec_gas_sum(bundle.transactions@) > BLOCK_GAS_LIMIT);
                }
                return Err(ValidationError::GasLimitExceeded);
            },
        };
        i = i + 1;
    }
    proof {
        assert(bundle.transactions@.take(bundle.transactions@.len() as int)
            =~= bundle.transactions@);
    }
    let limit = U256::from_u64(BLOCK_GAS_LIMIT);
    if total.gt(&limit) {
        Err(ValidationError::GasLimitExceeded)
    } else {
        Ok(())
    }
}

/// Why one relay attempt failed.
#[derive(Clone, Copy, Debug, PartialEq, Eq, Structural)]
pub enum RelayError {
    /// The relay's name matches no submission routine.
    UnsupportedRelay,
}

/// The relay names the pipeline can submit to.
pub open spec fn spec_relay_supported(name: Seq<char>) -> bool {
    name == "flashbots"@ || name == "bloXroute"@ || name == "eden"@
}

/// The bundle-hash prefix each relay stamps on an accepted bundle.
pub open spec fn spec_relay_prefix(name: Seq<char>) -> Seq<char> {
    if name == "flashbots"@ {
        "fb_"@
    } else if name == "bloXroute"@ {
        "bx_"@
    } else {
        "eden_"@
    }
}

/// The inclusion probability each relay reports, in basis points.
pub open spec fn spec_relay_probability_bps(name: Seq<char>) -> u32 {
    if name == "flashbots"@ {
        8500
    } else if name == "bloXroute"@ {
        7500
    } else {
        7000
    }
}

/// The outcome a relay reports for an accepted bundle.
pub open spec fn spec_submission_ok(res: SubmissionResult, b: MEVBundle, relay: RelayConfig)
    -> bool {
    &&& res.bundle_hash@ == spec_relay_prefix(relay.name@) + b.bundle_id@
    &&& res.status == SubmissionStatus::Submitted
    &&& res.relay@ == relay.name@
    &&& res.block_number == Some(b.target_block)
    &&& res.inclusion_probability_bps == Some(spec_relay_probability_bps(relay.name@))
}

/// Simulated acceptance by the first relay.
fn submit_to_flashbots(bundle: &MEVBundle, _relay: &RelayConfig) -> (r: Result<
    SubmissionResult,
    RelayError,
>)
    ensures
        r matches Ok(res) && res.bundle_hash@ == "fb_"@ + bundle.bundle_id@ && res.status
            == SubmissionStatus::Submitted && res.relay@ == "flashbots"@ && res.block_number
            == Some(bundle.target_block) && res.inclusion_probability_bps == Some(8500u32),
{
    Ok(
        SubmissionResult {
            bundle_hash: String::from_str("fb_").concat(bundle.bundle_id.as_str()),
            status: SubmissionStatus::Submitted,
            relay: String::from_str("flashbots"),
            block_number: Some(bundle.target_block),
            inclusion_probability_bps: Some(8500),
        },
    )
}

/// Simulated acceptance by the second relay.
fn submit_to_bloxroute(bundle: &MEVBundle, _relay: &RelayConfig) -> (r: Result<
    SubmissionResult,
    RelayError,
>)
    ensures
        r matches Ok(res) && res.bundle_hash@ == "bx_"@ + bundle.bundle_id@ && res.status
            == SubmissionStatus::Submitted && res.relay@ == "bloXroute"@ && res.block_number
            == Some(bundle.target_block) && res.inclusion_probability_bps == Some(7500u32),
{
    Ok(
        SubmissionResult {
            bundle_hash: String::from_str("bx_").concat(bundle.bundle_id.as_str()),
            status: SubmissionStatus::Submitted,
            relay: String::from_str("bloXroute"),
            block_number: Some(bundle.target_block),
            inclusion_probability_bps: Some(7500),
        },
    )
}

/// Simulated acceptance by the third relay.
fn submit_to_eden(bundle: &MEVBundle, _relay: &RelayConfig) -> (r: Result<
    SubmissionResult,
    RelayError,
>)
    ensures
        r matches Ok(res) && res.bundle_hash@ == "eden_"@ + bundle.bundle_id@ && res.status
            == SubmissionStatus::Submitted && res.relay@ == "eden"@ && res.block_number == Some(
            bundle.target_block,
        ) && res.inclusion_probability_bps == Some(7000u32),
{
    Ok(
        SubmissionResult {
            bundle_hash: String::from_str("eden_").concat(bundle.bundle_id.as_str()),
            status: SubmissionStatus::Submitted,
            relay: String::from_str("eden"),
            block_number: Some(bundle.target_block),
            inclusion_probability_bps: Some(7000),
        },
    )
}

/// Dispatches one submission attempt by relay name; an unrecognised name
/// fails the attempt.
fn submit_to_relay(bundle: &MEVBundle, relay: &RelayConfig) -> (r: Result<
    SubmissionResult,
    RelayError,
>)
    ensures
        spec_relay_supported(relay.name@) ==> (r matches Ok(res) && spec_submission_ok(
            res,
            *bundle,
            *relay,
        )),
        !spec_relay_supported(relay.name@) ==> r == Err::<SubmissionResult, RelayError>(
            RelayError::UnsupportedRelay,
        ),
{
    proof {
        reveal_strlit("flashbots");
        reveal_strlit("bloXroute");
        reveal_strlit("eden");
    }
    if str_eq(relay.name.as_str(), "flashbots") {
        submit_to_flashbots(bundle, relay)
    } else if str_eq(relay.name.as_str(), "bloXroute") {
        submit_to_bloxroute(bundle, relay)
    } else if str_eq(relay.name.as_str(), "eden") {
        submit_to_eden(bundle, relay)
    } else {
        Err(RelayError::UnsupportedRelay)
    }
}

/// Whether the pipeline will attempt, and succeed at, this relay.
pub open spec fn spec_relay_attempted(relay: RelayConfig) -> bool {
    relay.enabled && spec_relay_supported(relay.name@)
}

/// Index of the first relay whose submission goes through.
pub open spec fn spec_first_attempted_idx(relays: Seq<RelayConfig>) -> int
    decreases relays.len(),
{
    if relays.len() == 0 {
        0
    } else if spec_relay_attempted(relays[0]) {
        0
    } else {
        1 + spec_first_attempted_idx(relays.drop_first())
    }
}

/// Fallback stops at the first relay that accepts: if everything before
/// `i` is disabled or failing and relay `i` succeeds, relay `i` is the one
/// whose outcome the pipeline returns.
pub proof fn lemma_fallback_stops_at_first_success(relays: Seq<RelayConfig>, i: int)
    requires
        0 <= i < relays.len(),
        forall|j: int| 0 <= j < i ==> !spec_relay_attempted(#[trigger] relays[j]),
        spec_relay_attempted(relays[i]),
    ensures
        spec_first_attempted_idx(relays) == i,
    decreases relays.len(),
{
    if i > 0 {
        assert(forall|j: int|
            0 <= j < i - 1 ==> relays.drop_first()[j] == #[trigger] relays[j + 1]);
        lemma_fallback_stops_at_first_success(relays.drop_first(), i - 1);
    }
}

/// With every relay disabled, nothing is ever attempted.
pub proof fn lemma_all_disabled_no_attempt(relays: Seq<RelayConfig>)
    requires
        forall|i: int| 0 <= i < relays.len() ==> !(#[trigger] relays[i]).enabled,
    ensures
        !(exists|i: int| 0 <= i < relays.len() && spec_relay_attempted(#[trigger] relays[i])),
{
}

/// Relays after the first success never influence the outcome: two relay
/// lists that agree up to the first succeeding relay select the same relay,
/// whatever stands after it.
pub proof fn lemma_later_relays_never_tried(
    relays1: Seq<RelayConfig>,
    relays2: Seq<RelayConfig>,
    i: int,
)
    requires
        0 <= i < relays1.len(),
        i < relays2.len(),
        forall|j: int| 0 <= j <= i ==> #[trigger] relays1[j] == relays2[j],
        forall|j: int| 0 <= j < i ==> !spec_relay_attempted(#[trigger] relays1[j]),
        spec_relay_attempted(relays1[i]),
    ensures
        spec_first_attempted_idx(relays1) == i,
        spec_first_attempted_idx(relays2) == i,
        relays1[spec_first_attempted_idx(relays1)] == relays2[spec_first_attempted_idx(relays2)],
{
    lemma_fallback_stops_at_first_success(relays1, i);
    assert forall|j: int| 0 <= j < i implies !spec_relay_attempted(#[trigger] relays2[j]) by {
        assert(relays1[j] == relays2[j]);
    }
    assert(spec_relay_attempted(relays2[i]));
    lemma_fallback_stops_at_first_success(relays2, i);
}

/// Walks the relay list in priority order, skipping disabled relays, and
/// returns the first successful outcome; when every enabled relay fails,
/// the aggregate error names the bundle.
pub fn submit_bundle_to_relays(bundle: &MEVBundle, relays: &Vec<RelayConfig>) -> (r: Result<
    SubmissionResult,
    AllRelaysFailed,
>)
    ensures
        (exists|i: int| 0 <= i < relays@.len() && spec_relay_attempted(#[trigger] relays@[i]))
            ==> (r matches Ok(res) && 0 <= spec_first_attempted_idx(relays@) < relays@.len()
            && spec_submission_ok(res, *bundle, relays@[spec_first_attempted_idx(relays@)])),
        !(exists|i: int| 0 <= i < relays@.len() && spec_relay_attempted(#[trigger] relays@[i]))
            ==> (r matches Err(e) && e.bundle_id@ == bundle.bundle_id@),
{
    let mut i: usize = 0;
    while i < relays.len()
        invariant
            i <= relays@.len(),
            forall|j: int| 0 <= j < i ==> !spec_relay_attempted(#[trigger] relays@[j]),
        decreases relays@.len() - i,
    {
        let relay = &relays[i];
        if relay.enabled {
            match submit_to_relay(bundle, relay) {
                Ok(result) => {
                    proof {
                        lemma_fallback_stops_at_first_success(relays@, i as int);
                    }
                    return Ok(result);
                },
                Err(_) => {},
            }
        }
        i = i + 1;
    }
    Err(AllRelaysFailed { bundle_id: bundle.bundle_id.clone() })
}

/// The built-in relay list: two enabled relays in priority order and one
/// disabled one. Credentials are an injected concern and stay unset here.
pub fn get_relay_configs() -> (r: Vec<RelayConfig>)
    ensures
        r@.len() == 3,
        r@[0].name@ == "flashbots"@ && r@[0].endpoint@ == "https://relay.flashbots.net"@
            && r@[0].signing_key is None && r@[0].enabled,
        r@[1].name@ == "bloXroute"@ && r@[1].endpoint@ == "https://mev.api.blxrbdn.com"@
            && r@[1].signing_key is None && r@[1].enabled,
        r@[2].name@ == "eden"@ && r@[2].endpoint@ == "https://api.edennetwork.io"@
            && r@[2].signing_key is None && !r@[2].enabled,
{
    let mut relays: Vec<RelayConfig> = Vec::new();
    relays.push(
        RelayConfig {
            name: String::from_str("flashbots"),
            endpoint: String::from_str("https://relay.flashbots.net"),
            signing_key: None,
            enabled: true,
        },
    );
    relays.push(
        RelayConfig {
            name: String::from_str("bloXroute"),
            endpoint: String::from_str("https://mev.api.blxrbdn.com"),
            signing_key: None,
            enabled: true,
        },
    );
    relays.push(
        RelayConfig {
            name: String::from_str("eden"),
            endpoint: String::from_str("https://api.edennetwork.io"),
            signing_key: None,
            enabled: false,
        },
    );
    relays
}

/// Whether the builder can produce a bundle for this opportunity.
pub open spec fn spec_build_ok(op: MEVOpportunity) -> bool {
    match op {
        MEVOpportunity::Arbitrage { buy_dex, sell_dex, .. } => spec_dex_supported(buy_dex)
            && spec_dex_supported(sell_dex),
        MEVOpportunity::Sandwich { .. } => true,
        MEVOpportunity::Liquidation { protocol, .. } => spec_protocol_supported(protocol),
    }
}

/// The build error an unroutable opportunity raises.
pub open spec fn spec_build_err(op: MEVOpportunity) -> BuildError {
    match op {
        MEVOpportunity::Liquidation { .. } => BuildError::UnsupportedProtocol,
        _ => BuildError::UnsupportedVenue,
    }
}

/// The profit figure the built bundle carries.
pub open spec fn spec_expected_profit(op: MEVOpportunity) -> U256 {
    match op {
        MEVOpportunity::Arbitrage { net_profit_eth, .. } => net_profit_eth,
        MEVOpportunity::Sandwich { estimated_profit_eth, .. } => estimated_profit_eth,
        MEVOpportunity::Liquidation { liquidation_bonus_eth, .. } => liquidation_bonus_eth,
    }
}

/// Builds the bundle for an opportunity and races it across the relays;
/// in simulation mode the bundle is built and reported but nothing is
/// submitted, so no relay credential is ever needed.
pub fn create_and_send_bundle(opportunity: MEVOpportunity, simulate: bool) -> (r: Result<
    SubmissionResult,
    BundleError,
>)
    ensures
        !spec_build_ok(opportunity) ==> (r matches Err(e) && e matches BundleError::Build(b) && b
            == spec_build_err(opportunity)),
        spec_build_ok(opportunity) && simulate ==> (r matches Ok(res) && res.bundle_hash@
            == "simulated"@ && res.relay@ == "simulation"@ && res.status
            == SubmissionStatus::Submitted && res.block_number == Some((CURRENT_BLOCK_NUMBER + 1)
            as u64) && res.inclusion_probability_bps == Some(10000u32)),
        spec_build_ok(opportunity) && !simulate && spec_expected_profit(opportunity).as_nat() == 0
            ==> (r matches Err(e) && e matches BundleError::Validation(v) && v
            == ValidationError::NonPositiveProfit),
        spec_build_ok(opportunity) && !simulate && spec_expected_profit(opportunity).as_nat() > 0
            ==> (r matches Ok(res) && res.relay@ == "flashbots"@ && res.status
            == SubmissionStatus::Submitted && res.block_number == Some((CURRENT_BLOCK_NUMBER + 1)
            as u64) && res.inclusion_probability_bps == Some(8500u32) && res.bundle_hash@.len() > 3
            && res.bundle_hash@.subrange(0, 3) == "fb_"@),
{
    let built = match opportunity {
        MEVOpportunity::Arbitrage { .. } => create_arbitrage_bundle(opportunity),
        MEVOpportunity::Sandwich { .. } => create_sandwich_bundle(opportunity),
        MEVOpportunity::Liquidation { .. } => create_liquidation_bundle(opportunity),
    };
    let bundle = match built {
        Ok(b) => b,
        Err(e) => {
            return Err(BundleError::Build(e));
        },
    };
    proof {
        crate::uint256::lemma_from_nat_as_nat(100_000);
        crate::uint256::lemma_from_nat_as_nat(200_000);
        crate::uint256::lemma_from_nat_as_nat(300_000);
        crate::uint256::lemma_from_nat_as_nat(400_000);
        let s = bundle.transactions@;
        if s.len() == 2 {
            assert(s.drop_last().drop_last().len() == 0);
            assert(spec_gas_sum(s.drop_last().drop_last()) == 0);
            assert(s.drop_last().last() == s[0]);
            assert(spec_gas_sum(s.drop_last()) == spec_gas_sum(s.drop_last().drop_last())
                + spec_leg_gas(s.drop_last().last()));
            assert(spec_gas_sum(s) == spec_gas_sum(s.drop_last()) + spec_leg_gas(s.last()));
            assert(spec_gas_sum(s) == spec_leg_gas(s[0]) + spec_leg_gas(s[1]));
        } else {
            assert(s.len() == 3);
            let s2 = s.drop_last();
            assert(s2.drop_last().drop_last().len() == 0);
            assert(spec_gas_sum(s2.drop_last().drop_last()) == 0);
            assert(s2.drop_last().last() == s[0]);
            assert(s2.last() == s[1]);
            assert(spec_gas_sum(s2.drop_last()) == spec_gas_sum(s2.drop_last().drop_last())
                + spec_leg_gas(s2.drop_last().last()));
            assert(spec_gas_sum(s2) == spec_gas_sum(s2.drop_last()) + spec_leg_gas(s2.last()));
            assert(spec_gas_sum(s) == spec_gas_sum(s2) + spec_leg_gas(s.last()));
            assert(spec_gas_sum(s) == spec_leg_gas(s[0]) + spec_leg_gas(s[1]) + spec_leg_gas(
                s[2],
            ));
        }
        assert(spec_gas_sum(s) <= BLOCK_GAS_LIMIT);
    }
    if simulate {
        return Ok(
            SubmissionResult {
                bundle_hash: String::from_str("simulated"),
                status: SubmissionStatus::Submitted,
                relay: String::from_str("simulation"),
                block_number: Some(bundle.target_block),
                inclusion_probability_bps: Some(10000),
            },
        );
    }
    match validate_bundle(&bundle) {
        Ok(_) => {},
        Err(e) => {
            return Err(BundleError::Validation(e));
        },
    }
    let relays = get_relay_configs();
    proof {
        assert(spec_relay_attempted(relays@[0]));
        lemma_fallback_stops_at_first_success(relays@, 0);
    }
    match submit_bundle_to_relays(&bundle, &relays) {
        Ok(res) => {
            proof {
                reveal_strlit("fb_");
                assert(res.bundle_hash@.subrange(0, 3) =~= "fb_"@);
            }
            Ok(res)
        },
        Err(_) => {
            proof {
                assert(false);
            }
            Err(BundleError::Submission(AllRelaysFailed { bundle_id: bundle.bundle_id }))
        },
    }
}

} // verus!
