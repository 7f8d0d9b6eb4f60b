//! LED strip control: status display states, the pulse codec that turns
//! bytes into single-wire timing pulses, and the strip controller.
//!
//! The codec is a pure function from bytes to (high-duration,
//! low-duration) timing pairs; actual signal generation is done by an
//! external peripheral.  The controller models the exclusive hand-off of
//! that peripheral as a single-slot resource: it must be present before a
//! transmission starts and is given back when the transmission completes.

use vstd::prelude::*;

use crate::BoardError;
use crate::color::{Color, off_color};
use crate::config;

verus! {

/// LED status states for visual feedback.
#[derive(Debug, Clone, Copy, PartialEq, Eq, Structural)]
pub enum LedStatus {
    // System initialization states
    Starting,
    HardwareInit,
    WiFiDriverInit,

    // Network connection states
    WiFiConnecting,
    WiFiConnected,
    DHCPRequesting,
    NetworkReady,

    // Service states
    ServicesStarting,
    UDPServerBinding,
    UDPServerListening,
    MDNSAdvertising,

    // Operational states
    Operational,
    DataReceiving,
    LEDRendering,
    ConnectionMonitoring,

    // Error states
    WiFiError,
    NetworkError,
    ServiceError,
    HardwareError,
    CriticalError,

    // Recovery states
    Reconnecting,
    ServiceRestarting,
    SystemRecovering,

    /// Legacy state, kept for backward compatibility; maps to `CriticalError`.
    Error,
}

/// LED operation modes.
#[derive(Debug, Clone, Copy, PartialEq, Eq, Structural)]
pub enum LedMode {
    /// Non-environment mode: breathing + status indication
    NonEnvironment,
    /// Environment mode: display received pixel data
    Environment,
}

/// One timing pulse: how long the line is driven high, then how long it
/// is driven low, in cycles of the 10 MHz pulse clock.
#[derive(Debug, Clone, Copy, PartialEq, Eq, Structural)]
pub struct Pulse {
    pub high: u16,
    pub low: u16,
}

/// A logical 1 bit: 6 cycles high + 6 cycles low (600 ns + 600 ns).
pub open spec fn one_bit_pulse() -> Pulse {
    Pulse { high: 6, low: 6 }
}

/// A logical 0 bit: 3 cycles high + 9 cycles low (300 ns + 900 ns).
pub open spec fn zero_bit_pulse() -> Pulse {
    Pulse { high: 3, low: 9 }
}

/// The reset/latch pulse: the line stays low for 800 cycles (80 us),
/// longer than the protocol's minimum inter-frame reset time.
pub open spec fn reset_pulse() -> Pulse {
    Pulse { high: 0, low: 800 }
}

/// Bit `i` of a byte, most-significant bit first.
pub open spec fn bit_of(byte: u8, i: int) -> bool {
    (byte >> ((7 - i) as u8)) & 1 == 1
}

/// The timing pulse encoding one bit.
pub open spec fn pulse_for_bit(bit: bool) -> Pulse {
    if bit {
        one_bit_pulse()
    } else {
        zero_bit_pulse()
    }
}

/// The bit a timing pulse stands for.
pub open spec fn decode_pulse(p: Pulse) -> bool {
    p == one_bit_pulse()
}

/// The 8 pulses encoding one byte, most-significant bit first.
pub open spec fn byte_pulses(byte: u8) -> Seq<Pulse> {
    Seq::new(8, |i: int| pulse_for_bit(bit_of(byte, i)))
}

/// The pulses encoding a sequence of bytes, in order.
pub open spec fn bytes_pulses(data: Seq<u8>) -> Seq<Pulse>
    decreases data.len(),
{
    if data.len() == 0 {
        Seq::empty()
    } else {
        bytes_pulses(data.drop_last()) + byte_pulses(data.last())
    }
}

/// The four channel bytes of a color in wire order: green, red, blue,
/// white.
pub open spec fn color_wire_bytes(c: Color) -> Seq<u8> {
    seq![c.g, c.r, c.b, c.w]
}

/// The channel bytes of a color sequence, in wire order.
pub open spec fn wire_bytes(colors: Seq<Color>) -> Seq<u8>
    decreases colors.len(),
{
    if colors.len() == 0 {
        Seq::empty()
    } else {
        wire_bytes(colors.drop_last()) + color_wire_bytes(colors.last())
    }
}

/// The full pulse train for a frame: every color's four channel bytes in
/// wire order, each expanded to 8 pulses, followed by the reset pulse.
pub open spec fn frame_pulses(colors: Seq<Color>) -> Seq<Pulse> {
    bytes_pulses(wire_bytes(colors)).push(reset_pulse())
}

/// A byte is 8 pulses.
pub proof fn lemma_bytes_pulses_len(data: Seq<u8>)
    ensures
        bytes_pulses(data).len() == 8 * data.len(),
    decreases data.len(),
{
    if data.len() > 0 {
        lemma_bytes_pulses_len(data.drop_last());
    }
}

/// A color is 4 wire bytes.
pub proof fn lemma_wire_bytes_len(colors: Seq<Color>)
    ensures
        wire_bytes(colors).len() == 4 * colors.len(),
    decreases colors.len(),
{
    if colors.len() > 0 {
        lemma_wire_bytes_len(colors.drop_last());
    }
}

/// Decoding is consistent with encoding: pulse `i` of an encoded byte
/// decodes to bit `i` of the byte, most-significant bit first.
pub proof fn lemma_encode_byte_decodes(byte: u8, i: int)
    requires
        0 <= i < 8,
    ensures
        decode_pulse(byte_pulses(byte)[i]) == bit_of(byte, i),
{
}

/// Encode one byte as its 8 timing pulses, most-significant bit first.
pub fn encode_byte(byte: u8) -> (r: Vec<Pulse>)
    ensures
        r@ == byte_pulses(byte),
        r@.len() == 8,
{
    let mut r: Vec<Pulse> = Vec::new();
    let mut i: usize = 0;
    while i < 8
        invariant
            i <= 8,
            r@.len() == i,
            forall|j: int| 0 <= j < i ==> r@[j] == pulse_for_bit(bit_of(byte, j)),
        decreases 8 - i,
    {
        let shift: u8 = (7 - i) as u8;
        let bit: u8 = (byte >> shift) & 1;
        let p = if bit == 1 {
            Pulse { high: 6, low: 6 }
        } else {
            Pulse { high: 3, low: 9 }
        };
        r.push(p);
        i = i + 1;
    }
    proof {
        assert(r@ =~= byte_pulses(byte));
    }
    r
}

/// Encode a frame: for each color the four channel bytes in wire order
/// (green, red, blue, white), each expanded via `encode_byte`, followed
/// by one reset/latch pulse.  The result always holds exactly
/// `8 * 4 * colors.len() + 1` pulses.
pub fn encode_frame(colors: &Vec<Color>) -> (r: Vec<Pulse>)
    ensures
        r@ == frame_pulses(colors@),
        r@.len() == 8 * 4 * colors@.len() + 1,
{
    let mut r: Vec<Pulse> = Vec::new();
    let mut idx: usize = 0;
    while idx < colors.len()
        invariant
            idx <= colors@.len(),
            r@ == bytes_pulses(wire_bytes(colors@.take(idx as int))),
        decreases colors@.len() - idx,
    {
        let c = colors[idx];
        push_byte_pulses(&mut r, c.g);
        push_byte_pulses(&mut r, c.r);
        push_byte_pulses(&mut r, c.b);
        push_byte_pulses(&mut r, c.w);
        proof {
            let taken = colors@.take(idx + 1);
            assert(taken.drop_last() =~= colors@.take(idx as int));
            assert(taken.last() == colors@[idx as int]);
            lemma_bytes_pulses_color(wire_bytes(colors@.take(idx as int)), c);
        }
        idx = idx + 1;
    }
    proof {
        assert(colors@.take(colors@.len() as int) =~= colors@);
    }
    r.push(Pulse { high: 0, low: 800 });
    proof {
        lemma_wire_bytes_len(colors@);
        lemma_bytes_pulses_len(wire_bytes(colors@));
        assert(wire_bytes(colors@).len() == 4 * colors@.len());
        assert(bytes_pulses(wire_bytes(colors@)).len() == 8 * (4 * colors@.len()));
        assert(r@.len() == 8 * (4 * colors@.len()) + 1);
        assert(8 * 4 * colors@.len() == 8 * (4 * colors@.len())) by (nonlinear_arith);
    }
    r
}

/// Appending one color's wire bytes appends its pulses.
proof fn lemma_bytes_pulses_color(data: Seq<u8>, c: Color)
    ensures
        bytes_pulses(data + color_wire_bytes(c)) == bytes_pulses(data) + byte_pulses(c.g)
            + byte_pulses(c.r) + byte_pulses(c.b) + byte_pulses(c.w),
{
    let s4 = data + color_wire_bytes(c);
    let s1 = data + seq![c.g];
    let s2 = data + seq![c.g, c.r];
    let s3 = data + seq![c.g, c.r, c.b];
    assert(s4.drop_last() =~= s3);
    assert(s3.drop_last() =~= s2);
    assert(s2.drop_last() =~= s1);
    assert(s1.drop_last() =~= data);
    assert(s4.last() == c.w && s3.last() == c.b && s2.last() == c.r && s1.last() == c.g);
    assert(bytes_pulses(s4) == bytes_pulses(s3) + byte_pulses(c.w));
    assert(bytes_pulses(s3) == bytes_pulses(s2) + byte_pulses(c.b));
    assert(bytes_pulses(s2) == bytes_pulses(s1) + byte_pulses(c.r));
    assert(bytes_pulses(s1) == bytes_pulses(data) + byte_pulses(c.g));
}

/// Append the 8 pulses of one byte to a pulse buffer.
fn push_byte_pulses(out: &mut Vec<Pulse>, byte: u8)
    ensures
        final(out)@ == old(out)@ + byte_pulses(byte),
{
    let mut pulses = encode_byte(byte);
    out.append(&mut pulses);
}

/// Bytes of one LED on the wire.
pub const BYTES_PER_LED: usize = 4;

/// The pulse train for a raw byte stream: every byte's pulses followed
/// by the reset pulse.  A frame is committed whole: observers of the
/// strip never see a partial one.  How the peripheral buffers the train
/// is the hardware glue's business.
pub open spec fn raw_stream_pulses(data: Seq<u8>) -> Seq<Pulse> {
    bytes_pulses(data).push(reset_pulse())
}

/// Outcome of a hardware transmission, reported back by the peripheral's
/// driver glue.
#[derive(Debug, Clone, Copy, PartialEq, Eq, Structural)]
pub enum TransmitOutcome {
    /// The transmission completed.
    Completed,
    /// The transmission completed with a non-fatal warning; the protocol
    /// tolerates occasional signal glitches, so this counts as success.
    CompletedWithWarning,
    /// The transmission could not be started; the peripheral is lost.
    StartFailed,
}

// Status display parameters: breathing runs a 5 second cycle between the
// minimum and maximum brightness in steps of 2; the first three LEDs
// blink a status code.
/// Number of status LEDs at the head of the strip.
pub const STATUS_LEDS: usize = 3;

/// Minimum breathing brightness.
pub const BREATHING_MIN: u32 = 30;

/// Maximum breathing brightness.
pub const BREATHING_MAX: u32 = 180;

/// Breathing counter divider.
pub const BREATHING_SPEED: u32 = 1;

/// Breathing brightness step per tick.
pub const BREATHING_STEP: u32 = 2;

/// LEDs driven by the controller's own status display.
pub const STATUS_FRAME_LEDS: usize = 500;

/// The breathing brightness for a counter value: a triangle wave from
/// `BREATHING_MIN` up to `BREATHING_MAX` and back, in steps of
/// `BREATHING_STEP`.
pub open spec fn breathing_brightness(bc: u32) -> int {
    let half = (BREATHING_MAX as int - BREATHING_MIN as int) / (BREATHING_STEP as int);
    let cycle = ((bc / BREATHING_SPEED) as int) % (2 * half);
    if cycle < half {
        BREATHING_MIN + cycle * BREATHING_STEP
    } else {
        BREATHING_MAX - (cycle - half) * BREATHING_STEP
    }
}

/// Whether the status blink is in its "on" phase: each status group has
/// its own blink rate.
pub open spec fn status_blink_on(status: LedStatus, sc: u32) -> bool {
    match status {
        // System initialization - very fast blink
        LedStatus::Starting | LedStatus::HardwareInit | LedStatus::WiFiDriverInit => (sc / 8) % 2
            == 0,
        // Network connection - fast blink
        LedStatus::WiFiConnecting
        | LedStatus::WiFiConnected
        | LedStatus::DHCPRequesting
        | LedStatus::Reconnecting => (sc / 12) % 2 == 0,
        // Services - medium blink
        LedStatus::ServicesStarting
        | LedStatus::UDPServerBinding
        | LedStatus::UDPServerListening
        | LedStatus::MDNSAdvertising => (sc / 16) % 2 == 0,
        // Operational - slow pulse
        LedStatus::NetworkReady | LedStatus::Operational | LedStatus::ConnectionMonitoring => (sc
            / 20) % 3 == 0,
        // Data processing - very fast pulse
        LedStatus::DataReceiving | LedStatus::LEDRendering => (sc / 6) % 2 == 0,
        // Errors - medium blink
        LedStatus::WiFiError
        | LedStatus::NetworkError
        | LedStatus::ServiceError
        | LedStatus::HardwareError
        | LedStatus::Error => (sc / 20) % 2 == 0,
        // Critical error - fast blink
        LedStatus::CriticalError => (sc / 10) % 2 == 0,
        // Recovery - slow blink
        LedStatus::ServiceRestarting | LedStatus::SystemRecovering => (sc / 25) % 2 == 0,
    }
}

/// The status display frame, as raw wire bytes (4 per LED): the first
/// `STATUS_LEDS` LEDs show the blink code in white, the rest breathe.
pub open spec fn status_frame_bytes(
    status: LedStatus,
    sc: u32,
    bc: u32,
    led_count: int,
) -> Seq<u8> {
    Seq::new(
        (led_count * (BYTES_PER_LED as int)) as nat,
        |i: int|
            if i < STATUS_LEDS * BYTES_PER_LED {
                if status_blink_on(status, sc) {
                    255
                } else {
                    0
                }
            } else {
                breathing_brightness(bc) as u8
            },
    )
}

/// A counter bump that wraps instead of overflowing.
pub open spec fn bump_counter(c: u32) -> u32 {
    if c == u32::MAX {
        0
    } else {
        (c + 1) as u32
    }
}

/// Compute the status/breathing display frame for the given counters.
pub fn status_display_frame(status: LedStatus, status_counter: u32, breathing_counter: u32,
    led_count: usize) -> (frame: Vec<u8>)
    requires
        led_count * BYTES_PER_LED <= usize::MAX,
    ensures
        frame@ == status_frame_bytes(status, status_counter, breathing_counter, led_count as int),
{
    let half = (BREATHING_MAX - BREATHING_MIN) / BREATHING_STEP;
    let cycle = (breathing_counter / BREATHING_SPEED) % (2 * half);
    let brightness: u32 = if cycle < half {
        BREATHING_MIN + cycle * BREATHING_STEP
    } else {
        BREATHING_MAX - (cycle - half) * BREATHING_STEP
    };
    let bright = brightness as u8;

    let status_on = match status {
        LedStatus::Starting | LedStatus::HardwareInit | LedStatus::WiFiDriverInit => (
        status_counter / 8) % 2 == 0,
        LedStatus::WiFiConnecting
        | LedStatus::WiFiConnected
        | LedStatus::DHCPRequesting
        | LedStatus::Reconnecting => (status_counter / 12) % 2 == 0,
        LedStatus::ServicesStarting
        | LedStatus::UDPServerBinding
        | LedStatus::UDPServerListening
        | LedStatus::MDNSAdvertising => (status_counter / 16) % 2 == 0,
        LedStatus::NetworkReady | LedStatus::Operational | LedStatus::ConnectionMonitoring => (
        status_counter / 20) % 3 == 0,
        LedStatus::DataReceiving | LedStatus::LEDRendering => (status_counter / 6) % 2 == 0,
        LedStatus::WiFiError
        | LedStatus::NetworkError
        | LedStatus::ServiceError
        | LedStatus::HardwareError
        | LedStatus::Error => (status_counter / 20) % 2 == 0,
        LedStatus::CriticalError => (status_counter / 10) % 2 == 0,
        LedStatus::ServiceRestarting | LedStatus::SystemRecovering => (status_counter / 25) % 2
            == 0,
    };
    let status_byte: u8 = if status_on {
        255
    } else {
        0
    };

    let total = led_count * BYTES_PER_LED;
    let mut frame: Vec<u8> = Vec::new();
    let mut i: usize = 0;
    while i < total
        invariant
            i <= total,
            total == led_count * BYTES_PER_LED,
            frame@.len() == i,
            status_byte == if status_blink_on(status, status_counter) {
                255u8
            } else {
                0u8
            },
            bright == breathing_brightness(breathing_counter) as u8,
            forall|j: int|
                0 <= j < i ==> frame@[j] == status_frame_bytes(
                    status,
                    status_counter,
                    breathing_counter,
                    led_count as int,
                )[j],
        decreases total - i,
    {
        if i < STATUS_LEDS * BYTES_PER_LED {
            frame.push(status_byte);
        } else {
            frame.push(bright);
        }
        i = i + 1;
    }
    proof {
        assert(frame@ =~= status_frame_bytes(
            status,
            status_counter,
            breathing_counter,
            led_count as int,
        ));
    }
    frame
}

/// Mathematical model of an LED strip controller.
pub struct ControllerModel {
    /// Whether the transmit peripheral sits in its slot: it is taken for
    /// the duration of a transmission and given back on completion.
    pub channel_available: bool,
    pub status: LedStatus,
    pub status_counter: u32,
    pub breathing_counter: u32,
}

/// The model of a freshly created controller.
pub open spec fn initial_controller_model() -> ControllerModel {
    ControllerModel {
        channel_available: true,
        status: LedStatus::Starting,
        status_counter: 0,
        breathing_counter: BREATHING_MIN,
    }
}

/// LED strip controller.  It owns the transmit peripheral exclusively;
/// a transmission moves the peripheral out and `complete_transmission`
/// moves it back, so no other writer can interleave its own pulses.
pub struct LedController {
    channel_available: bool,
    status: LedStatus,
    status_counter: u32,
    breathing_counter: u32,
}

impl View for LedController {
    type V = ControllerModel;

    closed spec fn view(&self) -> ControllerModel {
        ControllerModel {
            channel_available: self.channel_available,
            status: self.status,
            status_counter: self.status_counter,
            breathing_counter: self.breathing_counter,
        }
    }
}

impl LedController {
    /// Create a new controller with the peripheral in its slot.
    pub fn new() -> (c: Self)
        ensures
            c@ == initial_controller_model(),
    {
        Self {
            channel_available: true,
            status: LedStatus::Starting,
            status_counter: 0,
            breathing_counter: BREATHING_MIN,
        }
    }

    /// Update the LED status; a changed status restarts its blink phase.
    pub fn set_status(&mut self, status: LedStatus)
        ensures
            final(self)@ == if status != old(self)@.status {
                ControllerModel { status, status_counter: 0, ..old(self)@ }
            } else {
                old(self)@
            },
    {
        if self.status != status {
            self.status = status;
            self.status_counter = 0;
        }
    }

    /// Get the current status.
    pub fn get_status(&self) -> (s: LedStatus)
        ensures
            s == self@.status,
    {
        self.status
    }

    /// Advance the display one tick and compute the status/breathing
    /// frame to transmit, as raw wire bytes.
    pub fn update_display(&mut self) -> (frame: Vec<u8>)
        ensures
            final(self)@ == (ControllerModel {
                status_counter: bump_counter(old(self)@.status_counter),
                breathing_counter: bump_counter(old(self)@.breathing_counter),
                ..old(self)@
            }),
            frame@ == status_frame_bytes(
                old(self)@.status,
                bump_counter(old(self)@.status_counter),
                bump_counter(old(self)@.breathing_counter),
                STATUS_FRAME_LEDS as int,
            ),
    {
        self.status_counter = bump_u32(self.status_counter);
        self.breathing_counter = bump_u32(self.breathing_counter);
        status_display_frame(self.status, self.status_counter, self.breathing_counter,
            STATUS_FRAME_LEDS)
    }

    /// Start a transmission of a raw byte stream: takes the peripheral
    /// out of its slot and returns the whole pulse train to emit.
    /// Fails if the peripheral is not in its slot.
    pub fn forward_raw_stream(&mut self, data: &[u8]) -> (r: Result<Vec<Pulse>, BoardError>)
        ensures
            old(self)@.channel_available ==> {
                &&& r matches Ok(pulses) && pulses@ == raw_stream_pulses(data@)
                &&& final(self)@ == (ControllerModel { channel_available: false, ..old(self)@ })
            },
            !old(self)@.channel_available ==> {
                &&& r == Err::<Vec<Pulse>, BoardError>(BoardError::LedError)
                &&& *final(self) == *old(self)
            },
    {
        if !self.channel_available {
            return Err(BoardError::LedError);
        }
        self.channel_available = false;

        let mut pulses: Vec<Pulse> = Vec::new();
        let mut i: usize = 0;
        while i < data.len()
            invariant
                i <= data@.len(),
                pulses@ == bytes_pulses(data@.take(i as int)),
            decreases data@.len() - i,
        {
            push_byte_pulses(&mut pulses, data[i]);
            proof {
                let taken = data@.take(i + 1);
                assert(taken.drop_last() =~= data@.take(i as int));
                assert(taken.last() == data@[i as int]);
            }
            i = i + 1;
        }
        proof {
            assert(data@.take(data@.len() as int) =~= data@);
        }
        pulses.push(Pulse { high: 0, low: 800 });
        Ok(pulses)
    }

    /// Give the peripheral back after a transmission.  A warning counts
    /// as success; a failed start means the peripheral is lost and every
    /// later transmission fails.  Completing when no transmission is in
    /// flight is an error.
    pub fn complete_transmission(&mut self, outcome: TransmitOutcome) -> (r: Result<
        (),
        BoardError,
    >)
        ensures
            old(self)@.channel_available ==> r == Err::<(), BoardError>(BoardError::LedError)
                && *final(self) == *old(self),
            !old(self)@.channel_available ==> match outcome {
                TransmitOutcome::Completed | TransmitOutcome::CompletedWithWarning => {
                    &&& r is Ok
                    &&& final(self)@ == (ControllerModel {
                        channel_available: true,
                        ..old(self)@
                    })
                },
                TransmitOutcome::StartFailed => {
                    &&& r == Err::<(), BoardError>(BoardError::LedError)
                    &&& *final(self) == *old(self)
                },
            },
    {
        if self.channel_available {
            return Err(BoardError::LedError);
        }
        match outcome {
            TransmitOutcome::Completed | TransmitOutcome::CompletedWithWarning => {
                self.channel_available = true;
                Ok(())
            },
            TransmitOutcome::StartFailed => Err(BoardError::LedError),
        }
    }

    /// Start a transmission of a complete color frame: the colors' wire
    /// bytes through the raw stream path.
    pub fn commit(&mut self, colors: &Vec<Color>) -> (r: Result<Vec<Pulse>, BoardError>)
        ensures
            old(self)@.channel_available ==> {
                &&& r matches Ok(pulses) && pulses@ == raw_stream_pulses(wire_bytes(colors@))
                &&& final(self)@ == (ControllerModel { channel_available: false, ..old(self)@ })
            },
            !old(self)@.channel_available ==> {
                &&& r == Err::<Vec<Pulse>, BoardError>(BoardError::LedError)
                &&& *final(self) == *old(self)
            },
    {
        let bytes = colors_to_wire_bytes(colors);
        self.forward_raw_stream(bytes.as_slice())
    }

    /// Start a transmission of a parsed packet's raw pixel bytes through
    /// the raw stream path.
    pub fn update_leds(&mut self, packet: &crate::udp_server::LedPacket) -> (r: Result<
        Vec<Pulse>,
        BoardError,
    >)
        ensures
            old(self)@.channel_available ==> {
                &&& r matches Ok(pulses) && pulses@ == raw_stream_pulses(
                    crate::udp_server::packet_bytes(packet.data),
                )
                &&& final(self)@ == (ControllerModel { channel_available: false, ..old(self)@ })
            },
            !old(self)@.channel_available ==> {
                &&& r == Err::<Vec<Pulse>, BoardError>(BoardError::LedError)
                &&& *final(self) == *old(self)
            },
    {
        let bytes = crate::udp_server::packet_buf_contents(&packet.data);
        self.forward_raw_stream(bytes.as_slice())
    }

    /// Blank the strip: a commit of an all-off frame sized to the
    /// maximum LED count.
    pub fn clear(&mut self) -> (r: Result<Vec<Pulse>, BoardError>)
        ensures
            old(self)@.channel_available ==> {
                &&& r matches Ok(pulses) && pulses@ == raw_stream_pulses(
                    wire_bytes(Seq::new(config::MAX_LEDS as nat, |i: int| off_color())),
                )
                &&& final(self)@ == (ControllerModel { channel_available: false, ..old(self)@ })
            },
            !old(self)@.channel_available ==> {
                &&& r == Err::<Vec<Pulse>, BoardError>(BoardError::LedError)
                &&& *final(self) == *old(self)
            },
    {
        let mut colors: Vec<Color> = Vec::new();
        let mut i: usize = 0;
        while i < config::MAX_LEDS
            invariant
                i <= config::MAX_LEDS,
                colors@.len() == i,
                forall|j: int| 0 <= j < i ==> colors@[j] == off_color(),
            decreases config::MAX_LEDS - i,
        {
            colors.push(Color::off());
            i = i + 1;
        }
        proof {
            assert(colors@ =~= Seq::new(config::MAX_LEDS as nat, |j: int| off_color()));
        }
        self.commit(&colors)
    }
}

/// Bump a counter, wrapping at the integer limit.
fn bump_u32(c: u32) -> (r: u32)
    ensures
        r == bump_counter(c),
{
    if c == u32::MAX {
        0
    } else {
        c + 1
    }
}

/// The wire bytes of a color sequence: green, red, blue, white per color.
pub fn colors_to_wire_bytes(colors: &Vec<Color>) -> (r: Vec<u8>)
    ensures
        r@ == wire_bytes(colors@),
{
    let mut r: Vec<u8> = Vec::new();
    let mut idx: usize = 0;
    while idx < colors.len()
        invariant
            idx <= colors@.len(),
            r@ == wire_bytes(colors@.take(idx as int)),
        decreases colors@.len() - idx,
    {
        let c = colors[idx];
        r.push(c.g);
        r.push(c.r);
        r.push(c.b);
        r.push(c.w);
        proof {
            let taken = colors@.take(idx + 1);
            assert(taken.drop_last() =~= colors@.take(idx as int));
            assert(taken.last() == colors@[idx as int]);
            assert(r@ =~= wire_bytes(colors@.take(idx + 1)));
        }
        idx = idx + 1;
    }
    proof {
        assert(colors@.take(colors@.len() as int) =~= colors@);
    }
    r
}

/// Whether the display should fall back from environment mode to the
/// status display: no pixel data was ever received, or the last data is
/// older than the environment timeout.
pub fn should_revert_to_status_mode(now_ms: u64, last_data_ms: Option<u64>, timeout_ms: u64) -> (r:
    bool)
    ensures
        r == match last_data_ms {
            None => true,
            Some(t) => now_ms > t && now_ms - t > timeout_ms,
        },
{
    match last_data_ms {
        None => true,
        Some(t) => now_ms > t && now_ms - t > timeout_ms,
    }
}

} // verus!
