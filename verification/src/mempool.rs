//! The per-transaction pipeline step and the presentation helpers around
//! it. The stream itself — subscribing to a node and fetching transaction
//! bodies — is I/O that the binary around the library drives; each fetched
//! transaction is handed to `process_transaction` as one unit of work.

use vstd::prelude::*;
use vstd::string::StrSliceExecFns;
use vstd::string::StringExecFns;
use crate::addr::Address;
use crate::bundler::{
    create_and_send_bundle, spec_build_ok, spec_expected_profit, SubmissionResult,
    SubmissionStatus,
};
use crate::cli::AddrStyle;
use crate::searcher::{evaluate_opportunity, spec_evaluate, PendingTransaction};
use crate::text::{spec_hex_digits, u64_to_hex_padded};
use crate::uint256::U256;

verus! {

/// A transfer above this many wei is flagged as high-value: half a native
/// unit.
pub const HIGH_VALUE_THRESHOLD_WEI: u128 = 500_000_000_000_000_000;

/// A gas price above this many wei signals competition: 100 gwei.
pub const HIGH_GAS_PRICE_THRESHOLD_WEI: u128 = 100_000_000_000;

/// Counters the stream loop aggregates across its units of work.
#[derive(Clone, Copy, Debug, PartialEq, Eq, Structural)]
pub struct StreamStats {
    /// Transactions dispatched for analysis.
    pub processed: u64,
    /// Units of work that ended in a submitted or simulated bundle.
    pub opportunities_found: u64,
}

impl StreamStats {
    pub fn new() -> (r: StreamStats)
        ensures
            r.processed == 0,
            r.opportunities_found == 0,
    {
        StreamStats { processed: 0, opportunities_found: 0 }
    }

    /// Counts one dispatched transaction; saturates at the maximum.
    pub fn record_dispatched(&mut self)
        ensures
            final(self).processed == if old(self).processed == u64::MAX {
                u64::MAX
            } else {
                (old(self).processed + 1) as u64
            },
            final(self).opportunities_found == old(self).opportunities_found,
    {
        if self.processed < u64::MAX {
            self.processed = self.processed + 1;
        }
    }

    /// Counts one finished unit of work; saturates at the maximum.
    pub fn record_outcome(&mut self, found: bool)
        ensures
            final(self).processed == old(self).processed,
            final(self).opportunities_found == if !found {
                old(self).opportunities_found
            } else if old(self).opportunities_found == u64::MAX {
                u64::MAX
            } else {
                (old(self).opportunities_found + 1) as u64
            },
    {
        if found && self.opportunities_found < u64::MAX {
            self.opportunities_found = self.opportunities_found + 1;
        }
    }
}

/// Whether the dispatch loop has handed out as many transactions as one
/// run allows.
pub fn reached_dispatch_limit(dispatched: u64, max_tx: usize) -> (r: bool)
    ensures
        r == (dispatched >= max_tx as u64),
{
    dispatched >= max_tx as u64
}

/// One unit of work: classify, detect, build and submit. Yields the
/// submission outcome when the transaction presented a buildable,
/// profitable opportunity, and nothing otherwise; errors inside the unit
/// never escape to the caller's loop.
pub fn process_transaction(tx: &PendingTransaction, simulate: bool) -> (r: Option<
    SubmissionResult,
>)
    ensures
        spec_evaluate(*tx) is None ==> r is None,
        spec_evaluate(*tx) matches Some(op) ==> (r is Some <==> (spec_build_ok(op) && (simulate
            || spec_expected_profit(op).as_nat() > 0))),
        r matches Some(res) ==> res.status == SubmissionStatus::Submitted,
        r matches Some(res) ==> res.relay@ == if simulate {
            "simulation"@
        } else {
            "flashbots"@
        },
        r matches Some(res) ==> res.block_number == Some(
            (crate::bundler::CURRENT_BLOCK_NUMBER + 1) as u64,
        ),
        r matches Some(res) ==> (!simulate ==> res.bundle_hash@.len() > 3
            && res.bundle_hash@.subrange(0, 3) == "fb_"@),
{
    match evaluate_opportunity(tx) {
        Some(opportunity) => match create_and_send_bundle(opportunity, simulate) {
            Ok(result) => Some(result),
            Err(_) => None,
        },
        None => None,
    }
}

/// Whether a transaction moves enough value to flag in the logs.
pub fn is_high_value(tx: &PendingTransaction) -> (r: bool)
    ensures
        r == (tx.value.as_nat() > HIGH_VALUE_THRESHOLD_WEI),
{
    let threshold = U256::from_u128(HIGH_VALUE_THRESHOLD_WEI);
    tx.value.gt(&threshold)
}

/// Whether a transaction bids enough gas to suggest competition.
pub fn is_high_gas_price(tx: &PendingTransaction) -> (r: bool)
    ensures
        r == match tx.gas_price {
            Some(g) => g.as_nat() > HIGH_GAS_PRICE_THRESHOLD_WEI,
            None => false,
        },
{
    match &tx.gas_price {
        Some(gas_price) => {
            let threshold = U256::from_u128(HIGH_GAS_PRICE_THRESHOLD_WEI);
            gas_price.gt(&threshold)
        },
        None => false,
    }
}

/// The full rendering of an address: `0x` and forty lowercase hex digits.
pub open spec fn spec_addr_hex(a: Address) -> Seq<char> {
    "0x"@ + spec_hex_digits(a.hi as nat, 8) + spec_hex_digits(a.mid as nat, 16) + spec_hex_digits(
        a.lo as nat,
        16,
    )
}

/// Renders an address in full: `0x` and forty lowercase hex digits.
pub fn format_addr_full(addr: &Address) -> (r: String)
    ensures
        r@ == spec_addr_hex(*addr),
        r@.len() == 42,
{
    let hi = u64_to_hex_padded(addr.hi as u64, 8);
    let mid = u64_to_hex_padded(addr.mid, 16);
    let lo = u64_to_hex_padded(addr.lo, 16);
    proof {
        reveal_strlit("0x");
        lemma_hex_digits_len(addr.hi as nat, 8);
        lemma_hex_digits_len(addr.mid as nat, 16);
        lemma_hex_digits_len(addr.lo as nat, 16);
    }
    let r = String::from_str("0x").concat(hi.as_str()).concat(mid.as_str()).concat(lo.as_str());
    proof {
        assert(r@ =~= spec_addr_hex(*addr));
    }
    r
}

/// A fixed-width rendering has exactly its width.
pub proof fn lemma_hex_digits_len(n: nat, width: nat)
    ensures
        spec_hex_digits(n, width).len() == width,
    decreases width,
{
    if width > 0 {
        lemma_hex_digits_len(n / 16, (width - 1) as nat);
    }
}

/// Shortens an address for compact logs: the first eight characters, an
/// ellipsis, and the last four.
pub fn format_addr_short(addr: &Address) -> (r: String)
    ensures
        r@ == spec_addr_hex(*addr).subrange(0, 8) + "…"@ + spec_addr_hex(*addr).subrange(38, 42),
{
    let full = format_addr_full(addr);
    let prefix = full.as_str().substring_char(0, 8);
    let suffix = full.as_str().substring_char(38, 42);
    let r = String::from_str(prefix).concat("…").concat(suffix);
    r
}

/// Renders an address in the chosen style. Presentation only: the value
/// itself is untouched.
pub fn format_addr(addr: &Address, style: AddrStyle) -> (r: String)
    ensures
        style == AddrStyle::Full ==> r@ == spec_addr_hex(*addr),
        style == AddrStyle::Short ==> r@ == spec_addr_hex(*addr).subrange(0, 8) + "…"@
            + spec_addr_hex(*addr).subrange(38, 42),
{
    match style {
        AddrStyle::Full => format_addr_full(addr),
        AddrStyle::Short => format_addr_short(addr),
    }
}

} // verus!
