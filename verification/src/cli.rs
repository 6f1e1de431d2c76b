//! Invocation settings as plain values: what to connect to, how much to
//! process, and how to render output. Argument parsing itself is left to
//! the binary around the library.

use vstd::prelude::*;

verus! {

/// When to colour terminal output.
#[derive(Clone, Copy, Debug, PartialEq, Eq, Structural)]
pub enum ColorChoice {
    Auto,
    Always,
    Never,
}

/// How to render an account address in logs.
#[derive(Clone, Copy, Debug, PartialEq, Eq, Structural)]
pub enum AddrStyle {
    /// Middle elided for compact logs.
    Short,
    /// The full hexadecimal form.
    Full,
}

/// One invocation's settings.
#[derive(Clone, Debug)]
pub struct Args {
    /// Verbose (debug) logging.
    pub verbose: bool,
    /// Detect and build without submitting.
    pub simulate: bool,
    /// Node WebSocket endpoint, when given on the command line.
    pub rpc_url: Option<String>,
    /// How many transactions to process before exiting.
    pub max_tx: usize,
    pub color: ColorChoice,
    pub addr_style: AddrStyle,
}

} // verus!
