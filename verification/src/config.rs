//! Configuration constants consumed by the core: protocol header bytes,
//! the UDP port, LED strip bounds and retry limits.  All are compile-time
//! constants; there is no runtime reconfiguration.

use vstd::prelude::*;

verus! {

/// Default UDP port for LED data communication.
pub const UDP_PORT: u16 = 23042;

/// Default LED data GPIO pin.
pub const LED_DATA_PIN: u8 = 4;

/// Maximum supported LEDs per strip.
pub const MAX_LEDS: usize = 1000;

/// Protocol header byte for LED data packets.
pub const PROTOCOL_HEADER: u8 = 0x02;

/// Protocol header byte for connection check packets.
pub const CONNECTION_CHECK_HEADER: u8 = 0x01;

/// Reserved frame-sync marker byte; packets starting with it are ignored.
pub const FRAME_SYNC_HEADER: u8 = 0x03;

/// Maximum UDP packet size for LED data.
pub const MAX_PACKET_SIZE: usize = 4096;

/// How many transient failures are retried in place before a state
/// machine escalates to a dedicated error state.
pub const MAX_RETRIES: u32 = 3;

/// Fast-path completion threshold of the frame assembler: a frame is
/// considered complete once this many pixels were received, even if the
/// configured strip is longer.
pub const FAST_FRAME_THRESHOLD: usize = 60;

/// WiFi connection timeout in milliseconds.
pub const WIFI_CONNECT_TIMEOUT_MS: u32 = 10000;

/// WiFi reconnection interval in milliseconds.
pub const WIFI_RECONNECT_INTERVAL_MS: u32 = 5000;

} // verus!
