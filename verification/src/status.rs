//! Connection states of the UDP server and the MIDI controller, as the UI
//! shows them.

use vstd::prelude::*;

verus! {

/// Current state of the UDP server, shared with the TUI for display.
#[derive(Debug, Clone)]
pub enum UdpStatus {
    Starting,
    Bound { addr: String },
    Failed { reason: String },
}

/// Current state of the MIDI controller connection, shared with the TUI for display.
#[derive(Debug, Clone)]
pub enum MidiStatus {
    Starting,
    Connected { port_name: String },
    NotFound,
    Failed { reason: String },
}

pub open spec fn spec_udp_status_text(status: &UdpStatus) -> Seq<char> {
    match status {
        UdpStatus::Starting => "UDP: starting…"@,
        UdpStatus::Bound { addr } => "UDP: "@ + addr@,
        UdpStatus::Failed { reason } => "UDP ERR: "@ + reason@,
    }
}

/// Text of the header's UDP status field.
pub fn udp_status_text(status: &UdpStatus) -> (r: String)
    ensures
        r@ == spec_udp_status_text(status),
{
    match status {
        UdpStatus::Starting => String::from_str("UDP: starting…"),
        UdpStatus::Bound { addr } => {
            let mut t = String::from_str("UDP: ");
            t.append(addr.as_str());
            t
        },
        UdpStatus::Failed { reason } => {
            let mut t = String::from_str("UDP ERR: ");
            t.append(reason.as_str());
            t
        },
    }
}

} // verus!
