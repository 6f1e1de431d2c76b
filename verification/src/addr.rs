//! A 160-bit account address held as three integer fields, most significant
//! first, together with the well-known contract addresses the bundle builder
//! routes calls to.

use vstd::prelude::*;

verus! {

/// A 20-byte address: `hi` holds the leading 4 bytes, `mid` the next 8,
/// `lo` the trailing 8, each big-endian.
#[derive(Clone, Copy, Debug, PartialEq, Eq, Structural)]
pub struct Address {
    pub hi: u32,
    pub mid: u64,
    pub lo: u64,
}

impl Address {
    /// The 160-bit value this address denotes.
    pub open spec fn as_nat(self) -> nat {
        self.hi as nat * 0x1_0000_0000_0000_0000_0000_0000_0000_0000nat + self.mid as nat
            * 0x1_0000_0000_0000_0000nat + self.lo as nat
    }

    pub fn zero() -> (r: Address)
        ensures
            r.as_nat() == 0,
            r == (Address { hi: 0, mid: 0, lo: 0 }),
    {
        Address { hi: 0, mid: 0, lo: 0 }
    }

    /// The address whose trailing 8 bytes hold `x` big-endian.
    pub fn from_low_u64_be(x: u64) -> (r: Address)
        ensures
            r.as_nat() == x,
            r == (Address { hi: 0, mid: 0, lo: x }),
    {
        Address { hi: 0, mid: 0, lo: x }
    }

    pub fn is_zero(&self) -> (r: bool)
        ensures
            r == (self.as_nat() == 0),
    {
        self.hi == 0 && self.mid == 0 && self.lo == 0
    }
}

pub open spec fn spec_uniswap_v2_router() -> Address {
    Address { hi: 0x7a250d56, mid: 0x30B4cF539739dF2C, lo: 0x5dAcb4c659F2488D }
}

/// Router contract of the first constant-product venue.
pub fn uniswap_v2_router() -> (r: Address)
    ensures
        r == spec_uniswap_v2_router(),
{
    Address { hi: 0x7a250d56, mid: 0x30B4cF539739dF2C, lo: 0x5dAcb4c659F2488D }
}

pub open spec fn spec_uniswap_v3_router() -> Address {
    Address { hi: 0xE592427A, mid: 0x0AEce92De3Edee1F, lo: 0x18E0157C05861564 }
}

/// Router contract of the concentrated-liquidity venue.
pub fn uniswap_v3_router() -> (r: Address)
    ensures
        r == spec_uniswap_v3_router(),
{
    Address { hi: 0xE592427A, mid: 0x0AEce92De3Edee1F, lo: 0x18E0157C05861564 }
}

pub open spec fn spec_sushiswap_router() -> Address {
    Address { hi: 0xd9e1cE17, mid: 0xf2641f24aE83637a, lo: 0xb66a2cca9C378B9F }
}

/// Router contract of the second constant-product venue.
pub fn sushiswap_router() -> (r: Address)
    ensures
        r == spec_sushiswap_router(),
{
    Address { hi: 0xd9e1cE17, mid: 0xf2641f24aE83637a, lo: 0xb66a2cca9C378B9F }
}

pub open spec fn spec_aave_pool() -> Address {
    Address { hi: 0x7d2768dE, mid: 0x32b0b80b7a3454c0, lo: 0x6BdAc94A69DDc7A9 }
}

/// Lending pool that serves both flash loans and liquidation calls.
pub fn aave_pool() -> (r: Address)
    ensures
        r == spec_aave_pool(),
{
    Address { hi: 0x7d2768dE, mid: 0x32b0b80b7a3454c0, lo: 0x6BdAc94A69DDc7A9 }
}

pub open spec fn spec_compound_comptroller() -> Address {
    Address { hi: 0x3d981921, mid: 0x0A31b4961b30EF54, lo: 0xbE2aeD79B9c9Cd3B }
}

/// Comptroller contract of the second lending protocol.
pub fn compound_comptroller() -> (r: Address)
    ensures
        r == spec_compound_comptroller(),
{
    Address { hi: 0x3d981921, mid: 0x0A31b4961b30EF54, lo: 0xbE2aeD79B9c9Cd3B }
}

} // verus!
