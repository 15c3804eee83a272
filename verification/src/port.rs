//! Port allocation: probe the operating system for an unused local TCP port,
//! degrading silently to a fixed fallback port when no port can be found.

use vstd::prelude::*;

verus! {

/// Fixed fallback port used when no free port can be probed.
pub const FALLBACK_PORT: u16 = 8000;

/// A port number usable as a local TCP service hint: any nonzero 16-bit value.
pub open spec fn valid_port(p: u16) -> bool {
    1 <= p
}

/// Relies on `portpicker::pick_unused_port`: it probes the operating system
/// for a currently unused local port, either by testing random candidates in
/// `15000..25000` or by letting the OS assign a port to a fresh socket; both
/// paths yield a nonzero port. The outcome depends on the machine's transient
/// socket state, so nothing more can be promised of it.
#[verifier::external_body]
fn probe_unused_port() -> (r: Option<u16>)
    ensures
        r matches Some(p) ==> valid_port(p),
{
    portpicker::pick_unused_port()
}

/// Turns the outcome of a port probe into the port to use: the probed port
/// when one was found, the fixed fallback otherwise.
pub fn resolve_port(probe: Option<u16>) -> (p: u16)
    ensures
        probe matches Some(q) ==> p == q,
        probe is None ==> p == FALLBACK_PORT,
{
    match probe {
        Some(q) => q,
        None => FALLBACK_PORT,
    }
}

/// Picks a currently unused local TCP port, falling back to `FALLBACK_PORT`
/// when none can be found. Allocation never fails: every outcome is a valid
/// nonzero port.
pub fn allocate() -> (p: u16)
    ensures
        valid_port(p),
{
    resolve_port(probe_unused_port())
}

} // verus!
