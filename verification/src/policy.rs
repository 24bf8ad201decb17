//! Run-wide decisions: probing strategy, resolution mode, warnings, and how
//! raw probe evidence becomes an outcome.
//!
//! Each decision is taken once per run, before the fan-out. The surrounding
//! process supplies the environment facts (is a tool on the path, is output a
//! terminal, did the capability self-test pass) and performs whatever the
//! decision calls for; the choice itself is made here.

use vstd::prelude::*;

verus! {

/// How every probe of a run reaches out: through the external reachability
/// tool, or through a raw ICMP socket opened directly. Chosen once per run,
/// never mixed within a sweep.
#[derive(Clone, Copy, PartialEq, Eq, Structural, Debug)]
pub enum ProbeStrategy {
    SystemProcess,
    RawSocket,
}

/// What one probe of one target reported. Each target is probed exactly
/// once; a timeout or a per-probe socket failure counts as unreachable.
#[derive(Clone, Copy, PartialEq, Eq, Structural, Debug)]
pub enum ProbeOutcome {
    Reachable,
    Unreachable,
}

/// Prefer the external tool when it is available and raw-socket mode was not
/// explicitly requested; otherwise open raw sockets directly.
pub fn choose_strategy(raw_requested: bool, tool_available: bool) -> (s: ProbeStrategy)
    ensures
        s == (if tool_available && !raw_requested {
            ProbeStrategy::SystemProcess
        } else {
            ProbeStrategy::RawSocket
        }),
{
    if tool_available && !raw_requested {
        ProbeStrategy::SystemProcess
    } else {
        ProbeStrategy::RawSocket
    }
}

/// Resolve hostnames exactly when resolution was not switched off and a
/// resolver is available.
pub fn resolution_enabled(dont_resolve: bool, resolver_available: bool) -> (b: bool)
    ensures
        b == (!dont_resolve && resolver_available),
{
    !dont_resolve && resolver_available
}

/// Warn about a missing resolver only when resolution was wanted, the
/// resolver is absent, and output goes to an interactive terminal.
pub fn warn_resolver_missing(dont_resolve: bool, resolver_available: bool, interactive: bool) -> (b:
    bool)
    ensures
        b == (!dont_resolve && !resolver_available && interactive),
{
    !dont_resolve && !resolver_available && interactive
}

/// Warn about missing raw-socket privilege only when the raw-socket strategy
/// was selected, its capability self-test failed, and diagnostics go to an
/// interactive terminal. The run still continues in degraded mode.
pub fn warn_capability_missing(strategy: ProbeStrategy, capability_ok: bool, interactive: bool) -> (b:
    bool)
    ensures
        b == (strategy is RawSocket && !capability_ok && interactive),
{
    match strategy {
        ProbeStrategy::RawSocket => !capability_ok && interactive,
        ProbeStrategy::SystemProcess => false,
    }
}

/// The outcome reported by the external reachability tool: reachable exactly
/// when its process exited successfully. A missing exit code (the process was
/// killed by a signal) counts as unreachable.
pub fn outcome_from_exit(code: Option<i32>) -> (o: ProbeOutcome)
    ensures
        o == (if code == Some(0i32) {
            ProbeOutcome::Reachable
        } else {
            ProbeOutcome::Unreachable
        }),
{
    match code {
        Some(0i32) => ProbeOutcome::Reachable,
        _ => ProbeOutcome::Unreachable,
    }
}

/// The outcome of one raw-socket probe: reachable exactly when a matching
/// echo reply arrived within the timeout.
pub fn outcome_from_reply(reply_received: bool) -> (o: ProbeOutcome)
    ensures
        o == (if reply_received {
            ProbeOutcome::Reachable
        } else {
            ProbeOutcome::Unreachable
        }),
{
    if reply_received {
        ProbeOutcome::Reachable
    } else {
        ProbeOutcome::Unreachable
    }
}

/// What a probe's outcome counts as for aggregation. When the raw-socket
/// strategy runs without the raw-socket capability, every probe uniformly
/// counts as unreachable (degraded mode); otherwise the probe's own report
/// stands.
pub open spec fn effective_of(strategy: ProbeStrategy, capability_ok: bool, probe: ProbeOutcome) -> ProbeOutcome {
    if strategy is RawSocket && !capability_ok {
        ProbeOutcome::Unreachable
    } else {
        probe
    }
}

/// Executable form of [`effective_of`].
pub fn effective_outcome(strategy: ProbeStrategy, capability_ok: bool, probe: ProbeOutcome) -> (o:
    ProbeOutcome)
    ensures
        o == effective_of(strategy, capability_ok, probe),
{
    match strategy {
        ProbeStrategy::RawSocket => {
            if !capability_ok {
                ProbeOutcome::Unreachable
            } else {
                probe
            }
        },
        ProbeStrategy::SystemProcess => probe,
    }
}

/// Hostname resolution for a target starts only after that target's probe
/// reported reachable, and only when resolution is enabled for the run.
pub fn needs_resolution(outcome: ProbeOutcome, resolve: bool) -> (b: bool)
    ensures
        b == (outcome is Reachable && resolve),
{
    match outcome {
        ProbeOutcome::Reachable => resolve,
        ProbeOutcome::Unreachable => false,
    }
}

} // verus!
