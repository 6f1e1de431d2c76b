//! A verified decision core for a mempool-watching bundle pipeline: it
//! classifies pending transactions from their calldata, scores arbitrage,
//! sandwich and liquidation opportunities against oracle data, builds the
//! ordered transaction bundle for the best one, validates it, and walks a
//! relay list until one submission succeeds.
//!
//! Amounts are 256-bit integers in wei ([`uint256::U256`]); health factors
//! and inclusion probabilities are fixed-point integers. Connecting to a
//! node, loading configuration from the environment and logging are left
//! to the binary around the library.

pub mod addr;
pub mod bundler;
pub mod cli;
pub mod mempool;
pub mod searcher;
pub mod text;
pub mod types;
pub mod uint256;
