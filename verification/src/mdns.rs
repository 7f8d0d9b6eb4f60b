//! mDNS announcement encoding: the fixed service-discovery response
//! packet advertising the LED control service.
//!
//! The packet is a DNS response with three answer records (PTR, SRV, A)
//! for the service type `_ambient_light._udp.local.` and the instance
//! `board-rs`, with name compression pointers back into the packet.
//! Sending and receiving mDNS datagrams is done by the surrounding
//! binary; this module only builds the bytes.

use vstd::prelude::*;

verus! {

/// Size of the announcement packet; the unused tail is zero.
pub const MDNS_RESPONSE_LEN: usize = 512;

/// The constant prefix of the response: DNS header, the PTR record for
/// the service type with the instance name as its data, the compression
/// pointer and header of the SRV record, and the SRV priority and
/// weight.  The port follows immediately after.
pub open spec fn mdns_prefix() -> Seq<u8> {
    seq![
        // DNS header: transaction id 0; authoritative response flags;
        // 0 questions, 3 answers, 0 authority, 0 additional
        0x00u8, 0x00, 0x84, 0x00, 0x00, 0x00, 0x00, 0x03, 0x00, 0x00, 0x00, 0x00,
        // service type "_ambient_light._udp.local."
        0x0e, 0x5f, 0x61, 0x6d, 0x62, 0x69, 0x65, 0x6e, 0x74, 0x5f, 0x6c, 0x69, 0x67, 0x68, 0x74,
        0x04, 0x5f, 0x75, 0x64, 0x70, 0x05, 0x6c, 0x6f, 0x63, 0x61, 0x6c, 0x00,
        // PTR record header: type 12, class IN with cache flush, TTL 120
        0x00, 0x0c, 0x80, 0x01, 0x00, 0x00, 0x00, 0x78,
        // PTR data length 36
        0x00, 0x24,
        // PTR data: "board-rs._ambient_light._udp.local."
        0x08, 0x62, 0x6f, 0x61, 0x72, 0x64, 0x2d, 0x72, 0x73,
        0x0e, 0x5f, 0x61, 0x6d, 0x62, 0x69, 0x65, 0x6e, 0x74, 0x5f, 0x6c, 0x69, 0x67, 0x68, 0x74,
        0x04, 0x5f, 0x75, 0x64, 0x70, 0x05, 0x6c, 0x6f, 0x63, 0x61, 0x6c, 0x00,
        // SRV record: compression pointer to the instance name at 49
        0xc0, 0x31,
        // SRV record header: type 33, class IN with cache flush, TTL 120
        0x00, 0x21, 0x80, 0x01, 0x00, 0x00, 0x00, 0x78,
        // SRV data length 22
        0x00, 0x16,
        // SRV priority 0, weight 0
        0x00, 0x00, 0x00, 0x00,
    ]
}

/// The constant bytes between the port and the IP address: the SRV
/// target hostname "board-rs.local.", then the A record's compression
/// pointer to it and its header.
pub open spec fn mdns_mid() -> Seq<u8> {
    seq![
        // SRV target hostname "board-rs.local."
        0x08u8, 0x62, 0x6f, 0x61, 0x72, 0x64, 0x2d, 0x72, 0x73, 0x05, 0x6c, 0x6f, 0x63, 0x61, 0x6c,
        0x00,
        // A record: compression pointer to the hostname at 103
        0xc0, 0x67,
        // A record header: type 1, class IN with cache flush, TTL 120,
        // data length 4
        0x00, 0x01, 0x80, 0x01, 0x00, 0x00, 0x00, 0x78, 0x00, 0x04,
    ]
}

/// The whole announcement: prefix, big-endian service port, hostname and
/// A-record header, the IPv4 address, and a zero tail up to 512 bytes.
pub open spec fn mdns_response_spec(ip: Seq<u8>, port: u16) -> Seq<u8> {
    mdns_prefix() + seq![(port / 256) as u8, (port % 256) as u8] + mdns_mid() + ip + Seq::new(
        377,
        |i: int| 0u8,
    )
}

/// Build the mDNS service-discovery response for the given IPv4 address
/// and service port.
#[verifier::rlimit(100)]
pub fn create_mdns_response(ip: [u8; 4], port: u16) -> (r: Vec<u8>)
    ensures
        r@ == mdns_response_spec(ip@, port),
        r@.len() == MDNS_RESPONSE_LEN,
{
    let mut r: Vec<u8> = Vec::new();
    // DNS header
    r.push(0x00);
    r.push(0x00);
    r.push(0x84);
    r.push(0x00);
    r.push(0x00);
    r.push(0x00);
    r.push(0x00);
    r.push(0x03);
    r.push(0x00);
    r.push(0x00);
    r.push(0x00);
    r.push(0x00);
    // service type "_ambient_light._udp.local."
    push_service_type(&mut r);
    // PTR record header and data length
    r.push(0x00);
    r.push(0x0c);
    r.push(0x80);
    r.push(0x01);
    r.push(0x00);
    r.push(0x00);
    r.push(0x00);
    r.push(0x78);
    r.push(0x00);
    r.push(0x24);
    // PTR data: instance name "board-rs." followed by the service type
    push_instance_label(&mut r);
    push_service_type(&mut r);
    // SRV record: pointer to the instance name, header, data length,
    // priority, weight
    r.push(0xc0);
    r.push(0x31);
    r.push(0x00);
    r.push(0x21);
    r.push(0x80);
    r.push(0x01);
    r.push(0x00);
    r.push(0x00);
    r.push(0x00);
    r.push(0x78);
    r.push(0x00);
    r.push(0x16);
    r.push(0x00);
    r.push(0x00);
    r.push(0x00);
    r.push(0x00);
    // service port, big-endian
    r.push((port / 256) as u8);
    r.push((port % 256) as u8);
    // SRV target hostname "board-rs.local."
    push_instance_label(&mut r);
    r.push(0x05);
    r.push(0x6c);
    r.push(0x6f);
    r.push(0x63);
    r.push(0x61);
    r.push(0x6c);
    r.push(0x00);
    // A record: pointer to the hostname, header
    r.push(0xc0);
    r.push(0x67);
    r.push(0x00);
    r.push(0x01);
    r.push(0x80);
    r.push(0x01);
    r.push(0x00);
    r.push(0x00);
    r.push(0x00);
    r.push(0x78);
    r.push(0x00);
    r.push(0x04);
    // IPv4 address
    r.push(ip[0]);
    r.push(ip[1]);
    r.push(ip[2]);
    r.push(ip[3]);
    // zero tail
    while r.len() < MDNS_RESPONSE_LEN
        invariant
            135 <= r@.len() <= MDNS_RESPONSE_LEN,
            r@.subrange(0, 135) == mdns_prefix() + seq![
                (port / 256) as u8,
                (port % 256) as u8,
            ] + mdns_mid() + ip@,
            forall|j: int| 135 <= j < r@.len() ==> r@[j] == 0u8,
        decreases MDNS_RESPONSE_LEN - r@.len(),
    {
        let ghost prev = r@;
        r.push(0x00);
        proof {
            assert(r@.subrange(0, 135) =~= prev.subrange(0, 135));
        }
    }
    proof {
        assert(r@ =~= mdns_response_spec(ip@, port));
    }
    r
}

/// Append the encoded service type "_ambient_light._udp.local." with its
/// terminating root label.
fn push_service_type(r: &mut Vec<u8>)
    ensures
        final(r)@ == old(r)@ + seq![
            0x0eu8, 0x5f, 0x61, 0x6d, 0x62, 0x69, 0x65, 0x6e, 0x74, 0x5f, 0x6c, 0x69, 0x67, 0x68,
            0x74, 0x04, 0x5f, 0x75, 0x64, 0x70, 0x05, 0x6c, 0x6f, 0x63, 0x61, 0x6c, 0x00,
        ],
{
    r.push(0x0e);
    r.push(0x5f);
    r.push(0x61);
    r.push(0x6d);
    r.push(0x62);
    r.push(0x69);
    r.push(0x65);
    r.push(0x6e);
    r.push(0x74);
    r.push(0x5f);
    r.push(0x6c);
    r.push(0x69);
    r.push(0x67);
    r.push(0x68);
    r.push(0x74);
    r.push(0x04);
    r.push(0x5f);
    r.push(0x75);
    r.push(0x64);
    r.push(0x70);
    r.push(0x05);
    r.push(0x6c);
    r.push(0x6f);
    r.push(0x63);
    r.push(0x61);
    r.push(0x6c);
    r.push(0x00);
    proof {
        assert(r@ =~= old(r)@ + seq![
            0x0eu8, 0x5f, 0x61, 0x6d, 0x62, 0x69, 0x65, 0x6e, 0x74, 0x5f, 0x6c, 0x69, 0x67, 0x68,
            0x74, 0x04, 0x5f, 0x75, 0x64, 0x70, 0x05, 0x6c, 0x6f, 0x63, 0x61, 0x6c, 0x00,
        ]);
    }
}

/// Append the encoded instance label "board-rs".
fn push_instance_label(r: &mut Vec<u8>)
    ensures
        final(r)@ == old(r)@ + seq![0x08u8, 0x62, 0x6f, 0x61, 0x72, 0x64, 0x2d, 0x72, 0x73],
{
    r.push(0x08);
    r.push(0x62);
    r.push(0x6f);
    r.push(0x61);
    r.push(0x72);
    r.push(0x64);
    r.push(0x2d);
    r.push(0x72);
    r.push(0x73);
    proof {
        assert(r@ =~= old(r)@ + seq![0x08u8, 0x62, 0x6f, 0x61, 0x72, 0x64, 0x2d, 0x72, 0x73]);
    }
}

/// Whether a received mDNS datagram is a query worth answering: long
/// enough for a DNS header and with the response bit clear.
pub fn is_mdns_query(datagram: &[u8]) -> (r: bool)
    ensures
        r == (datagram@.len() > 12 && datagram@[2] & 0x80 == 0),
{
    datagram.len() > 12 && datagram[2] & 0x80 == 0
}

/// The announcement with its transaction id replaced by the query\'s, as
/// a DNS answer must carry the id of the question it answers.
pub fn with_transaction_id(response: &Vec<u8>, query: &[u8]) -> (r: Vec<u8>)
    requires
        response@.len() >= 2,
        query@.len() >= 2,
    ensures
        r@ == response@.update(0, query@[0]).update(1, query@[1]),
{
    let mut r = response.clone();
    r[0] = query[0];
    r[1] = query[1];
    proof {
        assert(r@ =~= response@.update(0, query@[0]).update(1, query@[1]));
    }
    r
}

} // verus!
