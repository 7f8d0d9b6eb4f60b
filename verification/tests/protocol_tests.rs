//! UDP wire-protocol parser tests.

use board_rs::color::Color;
use board_rs::udp_server::{
    classify, connection_check_reply, serialize_rgb, serialize_rgbw, ConnectionWatch, PacketKind,
    UdpServer,
};
use board_rs::BoardError;

#[test]
fn connection_check_never_reaches_the_pixel_parser() {
    // the 0x01 probe is classified on its own and parse_packet rejects it
    assert!(matches!(classify(&[0x01]), PacketKind::ConnectionCheck));
    assert!(UdpServer::is_connection_check(&[0x01]));
    assert_eq!(
        UdpServer::parse_packet(&[0x01]).unwrap_err(),
        BoardError::ProtocolError
    );
    // and the reply is the same single byte
    assert_eq!(connection_check_reply(), vec![0x01]);
}

#[test]
fn connection_check_is_exactly_one_byte() {
    assert!(!UdpServer::is_connection_check(&[]));
    assert!(!UdpServer::is_connection_check(&[0x02]));
    assert!(!UdpServer::is_connection_check(&[0x01, 0x01]));
}

#[test]
fn frame_sync_packets_are_ignored() {
    assert!(matches!(classify(&[0x03]), PacketKind::Ignored));
    assert!(matches!(classify(&[0x03, 0x01, 0x02]), PacketKind::Ignored));
}

#[test]
fn bad_pixel_length_is_malformed() {
    // pixel data length 1 is a multiple of neither 3 nor 4
    assert!(matches!(
        classify(&[0x02, 0x00, 0x01, 0xFF]),
        PacketKind::Malformed
    ));
    // length 2 and 5 likewise
    assert!(matches!(
        classify(&[0x02, 0x00, 0x00, 1, 2]),
        PacketKind::Malformed
    ));
    assert!(matches!(
        classify(&[0x02, 0x00, 0x00, 1, 2, 3, 4, 5]),
        PacketKind::Malformed
    ));
}

#[test]
fn short_and_wrong_header_payloads_are_malformed() {
    assert!(matches!(classify(&[]), PacketKind::Malformed));
    assert!(matches!(classify(&[0x02]), PacketKind::Malformed));
    assert!(matches!(classify(&[0x02, 0x00]), PacketKind::Malformed));
    assert!(matches!(
        classify(&[0x05, 0x00, 0x00, 1, 2, 3]),
        PacketKind::Malformed
    ));
}

#[test]
fn rgbw_round_trip_recovers_offset_and_colors() {
    let colors = vec![Color::rgbw(1, 2, 3, 4), Color::rgbw(5, 6, 7, 8)];
    let payload = serialize_rgbw(7, &colors);
    match classify(&payload) {
        PacketKind::Pixels { offset, colors: got } => {
            assert_eq!(offset, 7);
            assert_eq!(got, colors);
        }
        _ => panic!("expected a pixel packet"),
    }
}

#[test]
fn rgb_round_trip_recovers_offset_and_rgb_channels() {
    // the white channel does not survive the 3-byte encoding
    let colors = vec![Color::rgbw(1, 2, 3, 200)];
    let payload = serialize_rgb(3, &colors);
    match classify(&payload) {
        PacketKind::Pixels { offset, colors: got } => {
            assert_eq!(offset, 3);
            assert_eq!(got, vec![Color::rgb(1, 2, 3)]);
        }
        _ => panic!("expected a pixel packet"),
    }
}

#[test]
fn offset_is_big_endian() {
    let payload = [0x02, 0x01, 0x02, 9, 8, 7];
    match classify(&payload) {
        PacketKind::Pixels { offset, colors } => {
            assert_eq!(offset, 258);
            assert_eq!(colors, vec![Color::rgb(9, 8, 7)]);
        }
        _ => panic!("expected a pixel packet"),
    }
}

#[test]
fn twelve_bytes_parse_as_rgbw() {
    // a multiple of both 3 and 4 is read in the native 4-byte format
    let payload = [0x02, 0x00, 0x00, 1, 2, 3, 4, 5, 6, 7, 8, 9, 10, 11, 12];
    match classify(&payload) {
        PacketKind::Pixels { offset, colors } => {
            assert_eq!(offset, 0);
            assert_eq!(
                colors,
                vec![
                    Color::rgbw(1, 2, 3, 4),
                    Color::rgbw(5, 6, 7, 8),
                    Color::rgbw(9, 10, 11, 12)
                ]
            );
        }
        _ => panic!("expected a pixel packet"),
    }
}

#[test]
fn empty_pixel_data_parses_with_offset() {
    match classify(&[0x02, 0x00, 0x00]) {
        PacketKind::Pixels { offset, colors } => {
            assert_eq!(offset, 0);
            assert!(colors.is_empty());
        }
        _ => panic!("expected a pixel packet"),
    }
}

#[test]
fn parse_packet_extracts_offset_and_raw_bytes() {
    let packet = UdpServer::parse_packet(&[0x02, 0x00, 0x05, 1, 2, 3, 4]).unwrap();
    assert_eq!(packet.offset, 5);
    assert_eq!(packet.data.as_slice(), &[1, 2, 3, 4]);
}

#[test]
fn parse_packet_rejects_bad_pixel_lengths() {
    // pixel data length 1 is a multiple of neither 3 nor 4
    assert_eq!(
        UdpServer::parse_packet(&[0x02, 0x00, 0x01, 0xFF]).unwrap_err(),
        BoardError::ProtocolError
    );
    assert_eq!(
        UdpServer::parse_packet(&[0x02, 0x00, 0x00, 1, 2, 3, 4, 5]).unwrap_err(),
        BoardError::ProtocolError
    );
}

#[test]
fn parse_packet_rejects_malformed_shapes() {
    assert_eq!(
        UdpServer::parse_packet(&[]).unwrap_err(),
        BoardError::ProtocolError
    );
    assert_eq!(
        UdpServer::parse_packet(&[0x02, 0x00]).unwrap_err(),
        BoardError::ProtocolError
    );
    assert_eq!(
        UdpServer::parse_packet(&[0x07, 0x00, 0x00, 1]).unwrap_err(),
        BoardError::ProtocolError
    );
}

#[test]
fn parse_packet_honours_buffer_capacity() {
    // pixel data up to the 4096-byte packet buffer fits
    let mut payload = vec![0x02, 0x00, 0x00];
    payload.extend(std::iter::repeat(7u8).take(4096));
    let packet = UdpServer::parse_packet(&payload).unwrap();
    assert_eq!(packet.data.as_slice().len(), 4096);
    // 4098 pixel bytes are a whole number of 3-byte colors but exceed
    // the buffer
    payload.extend(std::iter::repeat(7u8).take(2));
    assert_eq!(
        UdpServer::parse_packet(&payload).unwrap_err(),
        BoardError::ProtocolError
    );
}

#[test]
fn server_bookkeeping() {
    let mut s = UdpServer::new();
    assert!(!s.is_bound());
    assert_eq!(s.get_port(), 0);
    assert!(s.bind(23042).is_ok());
    assert!(s.is_bound());
    assert_eq!(s.get_port(), 23042);
    let d = UdpServer::default();
    assert!(!d.is_bound());
}

#[test]
fn connection_watch_fires_once_per_silent_period() {
    let mut w = ConnectionWatch::new(0, 30_000);
    assert!(!w.check_timeout(10_000));
    assert!(!w.check_timeout(30_000));
    assert!(w.check_timeout(30_001));
    // the window restarted; it fires again only after more silence
    assert!(!w.check_timeout(30_002));
    w.note_connection_check(40_000);
    assert!(!w.check_timeout(69_000));
    assert!(w.check_timeout(70_001));
}
