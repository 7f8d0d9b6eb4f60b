//! UDP wire-protocol parser.
//!
//! Payload format (multi-byte fields big-endian):
//! - connection check: the single byte `0x01`; answered with the same byte;
//! - frame sync: first byte `0x03`; silently ignored;
//! - pixel update: byte 0 is `0x02`, bytes 1-2 a u16 start offset, the rest
//!   pixel data whose length is a multiple of 4 (red, green, blue, white
//!   per color) or of 3 (red, green, blue; white defaults to 0);
//! - anything else is malformed and dropped.
//!
//! A pixel-data length that is a multiple of both 3 and 4 is read as
//! 4-byte colors: that is the strip's native, lossless format.
//!
//! The socket itself is an external collaborator: the surrounding binary
//! receives datagrams and hands the raw payload bytes in.

use vstd::prelude::*;

use crate::BoardError;
use crate::color::Color;
use crate::config;

verus! {

/// What a received packet buffer holds, as a sequence of bytes.
pub uninterp spec fn packet_bytes(v: heapless::Vec<u8, 4096>) -> Seq<u8>;

#[verifier::external_type_specification]
#[verifier::external_body]
#[verifier::reject_recursive_types(T)]
pub struct ExHeaplessVec<T, const N: usize>(heapless::Vec<T, N>);

/// Relies on heapless::Vec::new: a freshly constructed vector is empty.
#[verifier::external_body]
fn packet_buf_new() -> (v: heapless::Vec<u8, 4096>)
    ensures
        packet_bytes(v) == Seq::<u8>::empty(),
{
    heapless::Vec::new()
}

/// Relies on heapless::Vec::push: appends the item while the vector holds
/// fewer than its capacity of 4096 items, and hands the item back
/// unchanged once it is full.
#[verifier::external_body]
fn packet_buf_push(v: &mut heapless::Vec<u8, 4096>, byte: u8) -> (r: Result<(), u8>)
    ensures
        match r {
            Ok(_) => packet_bytes(*old(v)).len() < 4096 && packet_bytes(*final(v)) == packet_bytes(
                *old(v),
            ).push(byte),
            Err(b) => b == byte && packet_bytes(*old(v)).len() >= 4096 && packet_bytes(*final(v))
                == packet_bytes(*old(v)),
        },
{
    v.push(byte)
}

/// Relies on heapless::Vec::as_slice: exposes exactly the vector's
/// contents, in order.
#[verifier::external_body]
pub(crate) fn packet_buf_contents(v: &heapless::Vec<u8, 4096>) -> (r: Vec<u8>)
    ensures
        r@ == packet_bytes(*v),
{
    v.as_slice().to_vec()
}

/// A parsed pixel-update packet: a 16-bit start offset and the raw
/// pixel data bytes.
#[derive(Debug)]
pub struct LedPacket {
    /// LED start offset (16-bit big-endian on the wire).
    pub offset: u16,
    /// LED color data (RGB or RGBW).
    pub data: heapless::Vec<u8, 4096>,
}

/// Whether a payload is a connection check packet.
pub open spec fn is_connection_check_spec(data: Seq<u8>) -> bool {
    data.len() == 1 && data[0] == config::CONNECTION_CHECK_HEADER
}

/// The big-endian 16-bit offset carried in bytes 1-2 of a pixel packet.
pub open spec fn offset_of(data: Seq<u8>) -> u16 {
    (data[1] * 256 + data[2]) as u16
}

/// Whether `parse_packet` accepts the payload: not a connection check,
/// long enough, the pixel-data header, pixel data that is a whole
/// number of 3-byte or 4-byte colors, and that fits the packet buffer.
pub open spec fn parse_ok_spec(data: Seq<u8>) -> bool {
    &&& !is_connection_check_spec(data)
    &&& data.len() >= 3
    &&& data[0] == config::PROTOCOL_HEADER
    &&& ((data.len() - 3) % 4 == 0 || (data.len() - 3) % 3 == 0)
    &&& data.len() - 3 <= 4096
}

/// The pixel colors read from 4-byte groups: red, green, blue, white.
pub open spec fn decode_rgbw(bytes: Seq<u8>) -> Seq<Color> {
    Seq::new(
        (bytes.len() / 4) as nat,
        |i: int|
            Color {
                r: bytes[4 * i],
                g: bytes[4 * i + 1],
                b: bytes[4 * i + 2],
                w: bytes[4 * i + 3],
            },
    )
}

/// The pixel colors read from 3-byte groups: red, green, blue; the white
/// channel defaults to 0.
pub open spec fn decode_rgb(bytes: Seq<u8>) -> Seq<Color> {
    Seq::new(
        (bytes.len() / 3) as nat,
        |i: int| Color { r: bytes[3 * i], g: bytes[3 * i + 1], b: bytes[3 * i + 2], w: 0 },
    )
}

/// Spec-level classification of a payload.
pub enum PacketModel {
    /// The single-byte liveness probe; it never reaches the pixel parser.
    ConnectionCheck,
    /// A frame-sync marker packet: explicitly dropped, not an error.
    Ignored,
    /// A pixel update: start offset and decoded colors.
    Pixels { offset: u16, colors: Seq<Color> },
    /// Anything else: wrong header, too short, or a pixel-data length
    /// that is a multiple of neither 3 nor 4.
    Malformed,
}

/// Classification of a payload.
pub enum PacketKind {
    /// The single-byte liveness probe; it never reaches the pixel parser.
    ConnectionCheck,
    /// A frame-sync marker packet: explicitly dropped, not an error.
    Ignored,
    /// A pixel update: start offset and decoded colors.
    Pixels { offset: u16, colors: Vec<Color> },
    /// Anything else: wrong header, too short, or a pixel-data length
    /// that is a multiple of neither 3 nor 4.
    Malformed,
}

impl View for PacketKind {
    type V = PacketModel;

    open spec fn view(&self) -> PacketModel {
        match self {
            PacketKind::ConnectionCheck => PacketModel::ConnectionCheck,
            PacketKind::Ignored => PacketModel::Ignored,
            PacketKind::Pixels { offset, colors } => PacketModel::Pixels {
                offset: *offset,
                colors: colors@,
            },
            PacketKind::Malformed => PacketModel::Malformed,
        }
    }
}

/// How every payload is classified.
pub open spec fn classify_spec(payload: Seq<u8>) -> PacketModel {
    if is_connection_check_spec(payload) {
        PacketModel::ConnectionCheck
    } else if payload.len() > 0 && payload[0] == config::FRAME_SYNC_HEADER {
        PacketModel::Ignored
    } else if payload.len() >= 3 && payload[0] == config::PROTOCOL_HEADER {
        let pix = payload.skip(3);
        if pix.len() % 4 == 0 {
            PacketModel::Pixels { offset: offset_of(payload), colors: decode_rgbw(pix) }
        } else if pix.len() % 3 == 0 {
            PacketModel::Pixels { offset: offset_of(payload), colors: decode_rgb(pix) }
        } else {
            PacketModel::Malformed
        }
    } else {
        PacketModel::Malformed
    }
}

/// Classify a payload into one of the protocol's packet kinds.  All
/// outcomes are explicit variants; nothing panics.
pub fn classify(payload: &[u8]) -> (k: PacketKind)
    ensures
        k@ == classify_spec(payload@),
{
    if payload.len() == 1 && payload[0] == config::CONNECTION_CHECK_HEADER {
        return PacketKind::ConnectionCheck;
    }
    if payload.len() > 0 && payload[0] == config::FRAME_SYNC_HEADER {
        return PacketKind::Ignored;
    }
    if payload.len() < 3 || payload[0] != config::PROTOCOL_HEADER {
        return PacketKind::Malformed;
    }
    let offset: u16 = (payload[1] as u16) * 256 + (payload[2] as u16);
    let pix_len = payload.len() - 3;
    if pix_len % 4 == 0 {
        let n = pix_len / 4;
        let mut colors: Vec<Color> = Vec::new();
        let mut i: usize = 0;
        while i < n
            invariant
                n == payload@.skip(3).len() / 4,
                3 <= payload@.len() <= usize::MAX,
                payload@.skip(3).len() % 4 == 0,
                i <= n,
                colors@.len() == i,
                forall|j: int| 0 <= j < i ==> colors@[j] == decode_rgbw(payload@.skip(3))[j],
            decreases n - i,
        {
            let base = 3 + 4 * i;
            let c = Color {
                r: payload[base],
                g: payload[base + 1],
                b: payload[base + 2],
                w: payload[base + 3],
            };
            proof {
                assert(payload@.skip(3)[4 * i as int] == payload@[3 + 4 * i as int]);
                assert(payload@.skip(3)[4 * i as int + 1] == payload@[3 + 4 * i as int + 1]);
                assert(payload@.skip(3)[4 * i as int + 2] == payload@[3 + 4 * i as int + 2]);
                assert(payload@.skip(3)[4 * i as int + 3] == payload@[3 + 4 * i as int + 3]);
            }
            colors.push(c);
            i = i + 1;
        }
        proof {
            assert(colors@ =~= decode_rgbw(payload@.skip(3)));
        }
        PacketKind::Pixels { offset, colors }
    } else if pix_len % 3 == 0 {
        let n = pix_len / 3;
        let mut colors: Vec<Color> = Vec::new();
        let mut i: usize = 0;
        while i < n
            invariant
                n == payload@.skip(3).len() / 3,
                3 <= payload@.len() <= usize::MAX,
                payload@.skip(3).len() % 3 == 0,
                i <= n,
                colors@.len() == i,
                forall|j: int| 0 <= j < i ==> colors@[j] == decode_rgb(payload@.skip(3))[j],
            decreases n - i,
        {
            let base = 3 + 3 * i;
            let c = Color {
                r: payload[base],
                g: payload[base + 1],
                b: payload[base + 2],
                w: 0,
            };
            proof {
                assert(payload@.skip(3)[3 * i as int] == payload@[3 + 3 * i as int]);
                assert(payload@.skip(3)[3 * i as int + 1] == payload@[3 + 3 * i as int + 1]);
                assert(payload@.skip(3)[3 * i as int + 2] == payload@[3 + 3 * i as int + 2]);
            }
            colors.push(c);
            i = i + 1;
        }
        proof {
            assert(colors@ =~= decode_rgb(payload@.skip(3)));
        }
        PacketKind::Pixels { offset, colors }
    } else {
        PacketKind::Malformed
    }
}

/// The reply sent back for a connection check: the same single byte.
pub fn connection_check_reply() -> (r: Vec<u8>)
    ensures
        r@ == seq![config::CONNECTION_CHECK_HEADER],
{
    let mut r: Vec<u8> = Vec::new();
    r.push(config::CONNECTION_CHECK_HEADER);
    proof {
        assert(r@ =~= seq![config::CONNECTION_CHECK_HEADER]);
    }
    r
}

/// The wire bytes of a color sequence in the 4-byte encoding: red,
/// green, blue, white per color.
pub open spec fn rgbw_bytes(colors: Seq<Color>) -> Seq<u8> {
    Seq::new(
        (4 * colors.len()) as nat,
        |i: int|
            {
                let c = colors[i / 4];
                if i % 4 == 0 {
                    c.r
                } else if i % 4 == 1 {
                    c.g
                } else if i % 4 == 2 {
                    c.b
                } else {
                    c.w
                }
            },
    )
}

/// The wire bytes of a color sequence in the 3-byte encoding: red,
/// green, blue per color; the white channel is dropped.
pub open spec fn rgb_bytes(colors: Seq<Color>) -> Seq<u8> {
    Seq::new(
        (3 * colors.len()) as nat,
        |i: int|
            {
                let c = colors[i / 3];
                if i % 3 == 0 {
                    c.r
                } else if i % 3 == 1 {
                    c.g
                } else {
                    c.b
                }
            },
    )
}

/// A serialized pixel-update payload: header, big-endian offset, pixel
/// bytes.
pub open spec fn serialize_rgbw_spec(offset: u16, colors: Seq<Color>) -> Seq<u8> {
    seq![config::PROTOCOL_HEADER, (offset / 256) as u8, (offset % 256) as u8] + rgbw_bytes(colors)
}

/// A serialized pixel-update payload in the 3-byte encoding.
pub open spec fn serialize_rgb_spec(offset: u16, colors: Seq<Color>) -> Seq<u8> {
    seq![config::PROTOCOL_HEADER, (offset / 256) as u8, (offset % 256) as u8] + rgb_bytes(colors)
}

/// Serialize a pixel update in the 4-byte encoding.
pub fn serialize_rgbw(offset: u16, colors: &Vec<Color>) -> (r: Vec<u8>)
    ensures
        r@ == serialize_rgbw_spec(offset, colors@),
{
    let mut r: Vec<u8> = Vec::new();
    r.push(config::PROTOCOL_HEADER);
    r.push((offset / 256) as u8);
    r.push((offset % 256) as u8);
    let mut i: usize = 0;
    while i < colors.len()
        invariant
            i <= colors@.len(),
            r@.len() == 3 + 4 * i,
            r@[0] == config::PROTOCOL_HEADER,
            r@[1] == (offset / 256) as u8,
            r@[2] == (offset % 256) as u8,
            forall|j: int| 0 <= j < 4 * i ==> r@[3 + j] == rgbw_bytes(colors@)[j],
        decreases colors@.len() - i,
    {
        let c = colors[i];
        r.push(c.r);
        r.push(c.g);
        r.push(c.b);
        r.push(c.w);
        i = i + 1;
    }
    proof {
        assert(r@ =~= serialize_rgbw_spec(offset, colors@));
    }
    r
}

/// Serialize a pixel update in the 3-byte encoding; the white channel is
/// dropped.
pub fn serialize_rgb(offset: u16, colors: &Vec<Color>) -> (r: Vec<u8>)
    ensures
        r@ == serialize_rgb_spec(offset, colors@),
{
    let mut r: Vec<u8> = Vec::new();
    r.push(config::PROTOCOL_HEADER);
    r.push((offset / 256) as u8);
    r.push((offset % 256) as u8);
    let mut i: usize = 0;
    while i < colors.len()
        invariant
            i <= colors@.len(),
            r@.len() == 3 + 3 * i,
            r@[0] == config::PROTOCOL_HEADER,
            r@[1] == (offset / 256) as u8,
            r@[2] == (offset % 256) as u8,
            forall|j: int| 0 <= j < 3 * i ==> r@[3 + j] == rgb_bytes(colors@)[j],
        decreases colors@.len() - i,
    {
        let c = colors[i];
        r.push(c.r);
        r.push(c.g);
        r.push(c.b);
        i = i + 1;
    }
    proof {
        assert(r@ =~= serialize_rgb_spec(offset, colors@));
    }
    r
}

/// A color sequence with the white channel dropped: what survives the
/// 3-byte encoding.
pub open spec fn rgb_projection(colors: Seq<Color>) -> Seq<Color> {
    Seq::new(colors.len(), |i: int| Color { w: 0, ..colors[i] })
}

/// Round trip, 4-byte encoding: classifying a serialized pixel update
/// recovers the offset and exactly the colors, for every offset and
/// color sequence.
pub proof fn lemma_round_trip_rgbw(offset: u16, colors: Seq<Color>)
    ensures
        classify_spec(serialize_rgbw_spec(offset, colors)) == (PacketModel::Pixels {
            offset,
            colors,
        }),
{
    let payload = serialize_rgbw_spec(offset, colors);
    assert(payload.len() == 3 + 4 * colors.len());
    assert(payload[0] == config::PROTOCOL_HEADER);
    assert(payload.skip(3) =~= rgbw_bytes(colors));
    assert(decode_rgbw(rgbw_bytes(colors)) =~= colors);
    assert(offset_of(payload) == offset) by {
        assert(payload[1] == (offset / 256) as u8 && payload[2] == (offset % 256) as u8);
    }
}

/// Round trip, 3-byte encoding: classifying a serialized pixel update
/// recovers the offset and the colors with their white channel zeroed.
/// Color counts that are positive multiples of 4 are excluded: their
/// 3-byte stream is also a whole number of 4-byte groups and is read as
/// the native 4-byte encoding instead.
pub proof fn lemma_round_trip_rgb(offset: u16, colors: Seq<Color>)
    requires
        (3 * colors.len()) % 4 != 0 || colors.len() == 0,
    ensures
        classify_spec(serialize_rgb_spec(offset, colors)) == (PacketModel::Pixels {
            offset,
            colors: rgb_projection(colors),
        }),
{
    let payload = serialize_rgb_spec(offset, colors);
    assert(payload.len() == 3 + 3 * colors.len());
    assert(payload[0] == config::PROTOCOL_HEADER);
    assert(payload.skip(3) =~= rgb_bytes(colors));
    if colors.len() == 0 {
        assert(decode_rgbw(rgb_bytes(colors)) =~= rgb_projection(colors));
    } else {
        assert(decode_rgb(rgb_bytes(colors)) =~= rgb_projection(colors));
    }
    assert(offset_of(payload) == offset) by {
        assert(payload[1] == (offset / 256) as u8 && payload[2] == (offset % 256) as u8);
    }
}

/// A connection check payload never reaches the pixel parser: it is
/// classified as a connection check, and `parse_packet` rejects it.
pub proof fn lemma_connection_check_never_pixels(payload: Seq<u8>)
    requires
        is_connection_check_spec(payload),
    ensures
        classify_spec(payload) == PacketModel::ConnectionCheck,
        !parse_ok_spec(payload),
{
}

/// UDP server bookkeeping: the bound port.  The socket itself lives with
/// the surrounding binary; this core only parses what it hands in.
pub struct UdpServer {
    port: u16,
    is_bound: bool,
}

impl UdpServer {
    /// Create a new, unbound server.
    pub fn new() -> (s: Self)
        ensures
            s@ == (ServerModel { port: 0, is_bound: false }),
    {
        Self { port: 0, is_bound: false }
    }

    /// Record the port this server is bound to.
    pub fn bind(&mut self, port: u16) -> (r: Result<(), BoardError>)
        ensures
            final(self)@ == (ServerModel { port, is_bound: true }),
            r is Ok,
    {
        self.port = port;
        self.is_bound = true;
        Ok(())
    }

    /// Whether the server is bound.
    pub fn is_bound(&self) -> (r: bool)
        ensures
            r == self@.is_bound,
    {
        self.is_bound
    }

    /// The bound port.
    pub fn get_port(&self) -> (p: u16)
        ensures
            p == self@.port,
    {
        self.port
    }

    /// Whether a payload is a connection check packet.
    pub fn is_connection_check(data: &[u8]) -> (r: bool)
        ensures
            r == is_connection_check_spec(data@),
    {
        data.len() == 1 && data[0] == config::CONNECTION_CHECK_HEADER
    }

    /// Parse a raw pixel-update payload: header byte, big-endian offset,
    /// raw pixel bytes.  Connection checks are handled before this
    /// function and are rejected here; so is every malformed shape.
    pub fn parse_packet(data: &[u8]) -> (r: Result<LedPacket, BoardError>)
        ensures
            r is Ok <==> parse_ok_spec(data@),
            r matches Ok(p) ==> p.offset == offset_of(data@) && packet_bytes(p.data) == data@.skip(
                3,
            ),
            r is Err ==> r == Err::<LedPacket, BoardError>(BoardError::ProtocolError),
    {
        if Self::is_connection_check(data) {
            return Err(BoardError::ProtocolError);
        }
        if data.len() < 3 {
            return Err(BoardError::ProtocolError);
        }
        if data[0] != config::PROTOCOL_HEADER {
            return Err(BoardError::ProtocolError);
        }
        let pix_len = data.len() - 3;
        if pix_len % 4 != 0 && pix_len % 3 != 0 {
            return Err(BoardError::ProtocolError);
        }
        let offset: u16 = (data[1] as u16) * 256 + (data[2] as u16);

        let mut data_vec = packet_buf_new();
        let mut i: usize = 3;
        while i < data.len()
            invariant
                3 <= i <= data@.len(),
                i - 3 <= 4096,
                packet_bytes(data_vec) == data@.subrange(3, i as int),
            decreases data@.len() - i,
        {
            let byte = data[i];
            match packet_buf_push(&mut data_vec, byte) {
                Ok(_) => {},
                Err(_) => {
                    return Err(BoardError::ProtocolError);
                },
            }
            proof {
                assert(data@.subrange(3, i + 1) =~= data@.subrange(3, i as int).push(
                    data@[i as int],
                ));
            }
            i = i + 1;
        }
        proof {
            assert(data@.subrange(3, data@.len() as int) =~= data@.skip(3));
        }
        Ok(LedPacket { offset, data: data_vec })
    }
}

/// Mathematical model of the server bookkeeping.
pub struct ServerModel {
    pub port: u16,
    pub is_bound: bool,
}

impl View for UdpServer {
    type V = ServerModel;

    closed spec fn view(&self) -> ServerModel {
        ServerModel { port: self.port, is_bound: self.is_bound }
    }
}

/// Liveness bookkeeping for the receive loop: tracks when the last
/// connection check arrived and signals a timeout after sustained
/// silence.  Failing to receive within the window is not an error, only
/// a trigger for timeout bookkeeping.
pub struct ConnectionWatch {
    last_check_ms: u64,
    timeout_ms: u64,
}

/// Mathematical model of the liveness bookkeeping.
pub struct WatchModel {
    pub last_check_ms: u64,
    pub timeout_ms: u64,
}

impl View for ConnectionWatch {
    type V = WatchModel;

    closed spec fn view(&self) -> WatchModel {
        WatchModel { last_check_ms: self.last_check_ms, timeout_ms: self.timeout_ms }
    }
}

impl ConnectionWatch {
    /// Start watching at the given time.
    pub fn new(now_ms: u64, timeout_ms: u64) -> (w: Self)
        ensures
            w@ == (WatchModel { last_check_ms: now_ms, timeout_ms }),
    {
        Self { last_check_ms: now_ms, timeout_ms }
    }

    /// A connection check arrived: restart the window.
    pub fn note_connection_check(&mut self, now_ms: u64)
        ensures
            final(self)@ == (WatchModel { last_check_ms: now_ms, ..old(self)@ }),
    {
        self.last_check_ms = now_ms;
    }

    /// Whether the silence has lasted longer than the window.  When it
    /// has, the window restarts at `now_ms`, so the timeout fires once
    /// per period of sustained silence.
    pub fn check_timeout(&mut self, now_ms: u64) -> (timed_out: bool)
        ensures
            timed_out == (now_ms > old(self)@.last_check_ms && now_ms - old(self)@.last_check_ms
                > old(self)@.timeout_ms),
            timed_out ==> final(self)@ == (WatchModel { last_check_ms: now_ms, ..old(self)@ }),
            !timed_out ==> *final(self) == *old(self),
    {
        if now_ms > self.last_check_ms && now_ms - self.last_check_ms > self.timeout_ms {
            self.last_check_ms = now_ms;
            true
        } else {
            false
        }
    }
}

impl Default for UdpServer {
    /// A new, unbound server.
    fn default() -> (s: Self)
        ensures
            s@ == (ServerModel { port: 0, is_bound: false }),
    {
        Self::new()
    }
}

} // verus!
