//! Port selection for the supervised service.
//!
//! A port is looked for in the dynamic range, in ascending order, outside
//! the sub-range that operating systems commonly hand out first. Whether a
//! port is free is found out by the caller, one socket operation at a time;
//! this module decides which operation comes next and what its outcome
//! means.

use vstd::prelude::*;

verus! {

/// First port of the dynamic range that is scanned.
pub const SCAN_FIRST: u16 = 49152;

/// Last port of the dynamic range that is scanned.
pub const SCAN_LAST: u16 = 65534;

/// Last port of the sub-range that operating systems commonly hand out first.
pub const RESERVED_LAST: u16 = 49500;

/// Whether `port` lies in the sub-range that a scan skips.
pub open spec fn is_reserved(port: int) -> bool {
    SCAN_FIRST <= port <= RESERVED_LAST
}

/// Whether a scan considers `port` at all.
pub open spec fn is_candidate(port: int) -> bool {
    SCAN_FIRST <= port <= SCAN_LAST && !is_reserved(port)
}

/// One socket operation of a probe, on the loopback address.
#[derive(Clone, Copy, Debug, PartialEq, Eq, Structural)]
pub enum ProbeStep {
    /// Open a TCP listener on the port.
    BindTcp,
    /// Set the open listener up for the probe, without address reuse, so
    /// that a half-closed socket cannot make the port look free.
    ConfigureTcp,
    /// Close the listener and try to connect to the port as a client.
    ConnectTcp,
    /// Open a UDP socket on the port and close it again.
    BindUdp,
}

/// What a probe of `port` may answer, given what each operation may report.
///
/// The operations are made in the order of [`ProbeStep`], and the first one
/// that speaks against the port ends the probe. The port is free when the
/// listener opened and could be prepared, nobody accepted a connection once
/// it was closed, and the UDP socket opened.
pub open spec fn probe_verdict<F: Fn(u16, ProbeStep) -> bool>(
    attempt: F,
    port: u16,
    available: bool,
) -> bool {
    if available {
        &&& call_ensures(attempt, (port, ProbeStep::BindTcp), true)
        &&& call_ensures(attempt, (port, ProbeStep::ConfigureTcp), true)
        &&& call_ensures(attempt, (port, ProbeStep::ConnectTcp), false)
        &&& call_ensures(attempt, (port, ProbeStep::BindUdp), true)
    } else {
        ||| call_ensures(attempt, (port, ProbeStep::BindTcp), false)
        ||| {
            &&& call_ensures(attempt, (port, ProbeStep::BindTcp), true)
            &&& call_ensures(attempt, (port, ProbeStep::ConfigureTcp), false)
        }
        ||| {
            &&& call_ensures(attempt, (port, ProbeStep::BindTcp), true)
            &&& call_ensures(attempt, (port, ProbeStep::ConfigureTcp), true)
            &&& call_ensures(attempt, (port, ProbeStep::ConnectTcp), true)
        }
        ||| {
            &&& call_ensures(attempt, (port, ProbeStep::BindTcp), true)
            &&& call_ensures(attempt, (port, ProbeStep::ConfigureTcp), true)
            &&& call_ensures(attempt, (port, ProbeStep::ConnectTcp), false)
            &&& call_ensures(attempt, (port, ProbeStep::BindUdp), false)
        }
    }
}

/// What a scan may answer: the first candidate whose probe found it free,
/// every candidate below it having been found taken; or nothing, every
/// candidate having been found taken.
pub open spec fn scan_verdict<F: Fn(u16, ProbeStep) -> bool>(
    attempt: F,
    found: Option<u16>,
) -> bool {
    match found {
        Some(port) => {
            &&& is_candidate(port as int)
            &&& probe_verdict(attempt, port, true)
            &&& forall|below: u16|
                is_candidate(below as int) && below < port ==> #[trigger] probe_verdict(
                    attempt,
                    below,
                    false,
                )
        },
        None => forall|port: u16|
            is_candidate(port as int) ==> #[trigger] probe_verdict(attempt, port, false),
    }
}

/// Tells whether `port` belongs to the commonly pre-claimed sub-range.
pub fn is_commonly_used_port(port: u16) -> (reserved: bool)
    ensures
        reserved == is_reserved(port as int),
{
    SCAN_FIRST <= port && port <= RESERVED_LAST
}

/// Probes one port: free on TCP and on UDP at once, or not.
///
/// `attempt` performs one socket operation on a port and tells whether the
/// operation succeeded.
pub fn port_is_available<F: Fn(u16, ProbeStep) -> bool>(
    port: u16,
    attempt: &F,
) -> (available: bool)
    requires
        forall|step: ProbeStep| call_requires(*attempt, (port, step)),
    ensures
        probe_verdict(*attempt, port, available),
{
    if !attempt(port, ProbeStep::BindTcp) {
        return false;
    }
    if !attempt(port, ProbeStep::ConfigureTcp) {
        return false;
    }
    if attempt(port, ProbeStep::ConnectTcp) {
        return false;
    }
    attempt(port, ProbeStep::BindUdp)
}

/// Finds the first free port of the scanned range.
///
/// `attempt` performs one socket operation on a port and tells whether the
/// operation succeeded.
pub fn get_available_port<F: Fn(u16, ProbeStep) -> bool>(attempt: F) -> (found: Option<u16>)
    requires
        forall|port: u16, step: ProbeStep|
            is_candidate(port as int) ==> call_requires(attempt, (port, step)),
    ensures
        scan_verdict(attempt, found),
        found matches Some(port) ==> RESERVED_LAST < port <= SCAN_LAST,
{
    let mut port: u16 = SCAN_FIRST;
    while port <= SCAN_LAST
        invariant
            SCAN_FIRST <= port <= SCAN_LAST + 1,
            forall|port: u16, step: ProbeStep|
                is_candidate(port as int) ==> call_requires(attempt, (port, step)),
            forall|below: u16|
                is_candidate(below as int) && below < port ==> #[trigger] probe_verdict(
                    attempt,
                    below,
                    false,
                ),
        decreases SCAN_LAST + 1 - port,
    {
        if !is_commonly_used_port(port) {
            if port_is_available(port, &attempt) {
                return Some(port);
            }
        }
        port = port + 1;
    }
    None
}

/// A scan never answers with a port of the reserved sub-range, nor with one
/// outside the scanned range.
pub proof fn lemma_scan_avoids_reserved<F: Fn(u16, ProbeStep) -> bool>(attempt: F, port: u16)
    requires
        scan_verdict(attempt, Some(port)),
    ensures
        !is_reserved(port as int),
        RESERVED_LAST < port <= SCAN_LAST,
{
}

/// The port that a scan answers with passed every check of its probe: a TCP
/// listener and a UDP socket were opened on it, and nobody accepted a
/// connection to it.
pub proof fn lemma_found_port_passed_probe<F: Fn(u16, ProbeStep) -> bool>(attempt: F, port: u16)
    requires
        scan_verdict(attempt, Some(port)),
    ensures
        call_ensures(attempt, (port, ProbeStep::BindTcp), true),
        call_ensures(attempt, (port, ProbeStep::ConfigureTcp), true),
        call_ensures(attempt, (port, ProbeStep::ConnectTcp), false),
        call_ensures(attempt, (port, ProbeStep::BindUdp), true),
{
}

/// Where every socket operation has one outcome only, a scan has one answer
/// only.
pub proof fn lemma_scan_has_one_answer<F: Fn(u16, ProbeStep) -> bool>(
    attempt: F,
    first: Option<u16>,
    second: Option<u16>,
)
    requires
        scan_verdict(attempt, first),
        scan_verdict(attempt, second),
        forall|port: u16, step: ProbeStep, one: bool, other: bool|
            call_ensures(attempt, (port, step), one) && call_ensures(attempt, (port, step), other)
                ==> one == other,
    ensures
        first == second,
{
    match (first, second) {
        (Some(low), Some(high)) => {
            if low < high {
                assert(probe_verdict(attempt, low, false));
            } else if high < low {
                assert(probe_verdict(attempt, high, false));
            }
        },
        (Some(port), None) => {
            assert(probe_verdict(attempt, port, false));
        },
        (None, Some(port)) => {
            assert(probe_verdict(attempt, port, false));
        },
        (None, None) => {},
    }
}

} // verus!
