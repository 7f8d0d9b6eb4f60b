//! mDNS announcement and network-value tests.

use board_rs::mdns::{create_mdns_response, is_mdns_query, with_transaction_id};
use board_rs::wifi::subnet_mask_from_prefix;

#[test]
fn mdns_response_layout() {
    let resp = create_mdns_response([192, 168, 1, 42], 23042);
    assert_eq!(resp.len(), 512);
    // DNS header: authoritative response, 3 answers
    assert_eq!(&resp[0..12], &[0, 0, 0x84, 0, 0, 0, 0, 3, 0, 0, 0, 0]);
    // service type
    assert_eq!(&resp[12..39], b"\x0e_ambient_light\x04_udp\x05local\x00");
    // PTR record: type 12, cache-flush IN, TTL 120, data length 36
    assert_eq!(&resp[39..49], &[0, 0x0c, 0x80, 1, 0, 0, 0, 0x78, 0, 36]);
    // instance name
    assert_eq!(&resp[49..85], b"\x08board-rs\x0e_ambient_light\x04_udp\x05local\x00");
    // SRV record: pointer to instance name, type 33, data length 22
    assert_eq!(&resp[85..97], &[0xc0, 49, 0, 0x21, 0x80, 1, 0, 0, 0, 0x78, 0, 22]);
    // priority, weight, port 23042 = 0x5a02
    assert_eq!(&resp[97..103], &[0, 0, 0, 0, 0x5a, 0x02]);
    // hostname
    assert_eq!(&resp[103..119], b"\x08board-rs\x05local\x00");
    // A record: pointer to hostname, type 1, data length 4
    assert_eq!(
        &resp[119..131],
        &[0xc0, 103, 0, 0x01, 0x80, 1, 0, 0, 0, 0x78, 0, 4]
    );
    // the address itself
    assert_eq!(&resp[131..135], &[192, 168, 1, 42]);
    // zero tail
    assert!(resp[135..].iter().all(|b| *b == 0));
}

#[test]
fn mdns_port_is_big_endian() {
    let resp = create_mdns_response([10, 0, 0, 1], 0x1234);
    assert_eq!(resp[101], 0x12);
    assert_eq!(resp[102], 0x34);
}

#[test]
fn mdns_query_detection() {
    // response bit clear, long enough: a query
    let mut query = [0u8; 20];
    query[2] = 0x00;
    assert!(is_mdns_query(&query));
    // response bit set: not a query
    query[2] = 0x84;
    assert!(!is_mdns_query(&query));
    // too short
    assert!(!is_mdns_query(&[0u8; 12]));
}

#[test]
fn mdns_answer_carries_the_query_transaction_id() {
    let resp = create_mdns_response([10, 0, 0, 1], 23042);
    let query = [0xAB, 0xCD, 0, 0, 0, 0, 0, 0, 0, 0, 0, 0, 0];
    let answer = with_transaction_id(&resp, &query);
    assert_eq!(answer[0], 0xAB);
    assert_eq!(answer[1], 0xCD);
    assert_eq!(&answer[2..], &resp[2..]);
}

#[test]
fn subnet_masks_from_prefix_lengths() {
    assert_eq!(subnet_mask_from_prefix(24), [255, 255, 255, 0]);
    assert_eq!(subnet_mask_from_prefix(16), [255, 255, 0, 0]);
    assert_eq!(subnet_mask_from_prefix(32), [255, 255, 255, 255]);
    assert_eq!(subnet_mask_from_prefix(1), [128, 0, 0, 0]);
    assert_eq!(subnet_mask_from_prefix(25), [255, 255, 255, 128]);
}
