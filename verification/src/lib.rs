//! Core logic of a WiFi-to-LED-strip bridge.
//!
//! The crate covers the parts of the firmware with real invariants:
//! the UDP wire-protocol parser, the frame assembler that collects
//! fragmented pixel writes into complete frames, the pulse codec and
//! strip-driver model that turn frames into hardware timing pulses,
//! and the system state machine that supervises the connection
//! lifecycle.  Network sockets, WiFi association and the pulse
//! peripheral itself are external collaborators: the surrounding
//! binary performs the I/O and feeds plain values in and out.

use vstd::prelude::*;

pub mod color;
pub mod config;
pub mod frame;
pub mod led_control;
pub mod mdns;
pub mod state_machine;
pub mod udp_server;
pub mod wifi;

verus! {

/// Error types for the atmosphere light board.
#[derive(Debug, Clone, Copy, PartialEq, Eq, Structural)]
pub enum BoardError {
    /// WiFi connection error
    WiFiError,
    /// UDP server error
    UdpError,
    /// LED control error
    LedError,
    /// Protocol parsing error
    ProtocolError,
    /// System error
    SystemError,
    /// mDNS service error
    MdnsError,
}

} // verus!
