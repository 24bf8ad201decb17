//! Verified core of a local-subnet host discovery tool.
//!
//! Given the machine's local IPv4 addresses, the tool derives each address's
//! /24 subnet prefix, probes every host suffix 1..=254 of that prefix for
//! reachability, optionally resolves reachable addresses to hostnames, and
//! prints one line per unique reachable host.
//!
//! This crate holds the verified decision and aggregation core: subnet-prefix
//! derivation, probe-target generation, the textual form of addresses and
//! result lines, strategy and resolution policy, degraded-mode handling, and
//! the deduplicated result set. The surrounding process (interface
//! enumeration, spawning the external reachability tool, raw ICMP sockets,
//! hostname lookup, printing) performs only I/O and hands plain values in and
//! out.

use vstd::prelude::*;

pub mod addr;
pub mod laws;
pub mod policy;
pub mod sweep;
pub mod text;

verus! {

/// Options selected for one sweep invocation, as read from the command line.
pub struct Opt {
    /// Restrict discovery to one named interface.
    pub interface: Option<String>,
    /// Disable hostname resolution even if a resolver is available.
    pub dont_resolve: bool,
    /// Force raw-socket probing instead of the external reachability tool.
    pub raw_socket: bool,
    /// Per-probe timeout in seconds.
    pub timeout_secs: u64,
}

} // verus!
