use jdwp_client::protocol::{
    check_handshake, handshake_token, parse_header, CommandPacket, JdwpError, ReplyPacket,
    HEADER_SIZE, MAX_PACKET_SIZE,
};
use std::sync::atomic::{AtomicU32, Ordering};

#[test]
fn it_works() {
    assert_eq!(2 + 2, 4);
}

#[test]
fn test_next_id() {
    // Test ID counter without creating a real TcpStream
    let counter = AtomicU32::new(1);

    assert_eq!(counter.fetch_add(1, Ordering::SeqCst), 1);
    assert_eq!(counter.fetch_add(1, Ordering::SeqCst), 2);
    assert_eq!(counter.fetch_add(1, Ordering::SeqCst), 3);
}

#[test]
fn test_command_packet_encode() {
    let packet = CommandPacket::new(1, 1, 1);
    let encoded = packet.encode();

    assert_eq!(encoded.len(), HEADER_SIZE);
    assert_eq!(&encoded[0..4], &[0, 0, 0, 11]); // length (big-endian)
    assert_eq!(&encoded[4..8], &[0, 0, 0, 1]); // id (big-endian)
    assert_eq!(encoded[8], 0x00); // command flag
    assert_eq!(encoded[9], 1); // command set
    assert_eq!(encoded[10], 1); // command
}

#[test]
fn test_big_endian_encoding() {
    let packet = CommandPacket::new(0x12345678, 1, 1);
    let encoded = packet.encode();

    // ID should be encoded as big-endian: 0x12345678
    assert_eq!(&encoded[4..8], &[0x12, 0x34, 0x56, 0x78]);

    // NOT little-endian (which would be [0x78, 0x56, 0x34, 0x12])
    assert_ne!(&encoded[4..8], &[0x78, 0x56, 0x34, 0x12]);
}

#[test]
fn test_reply_packet_decode() {
    let reply_data = vec![
        0, 0, 0, 11, // length = 11 (big-endian)
        0, 0, 0, 1, // id = 1 (big-endian)
        0x80, // reply flag
        0, 0, // error code = 0 (big-endian)
    ];

    let packet = ReplyPacket::decode(&reply_data).unwrap();
    assert_eq!(packet.id, 1);
    assert_eq!(packet.error_code, 0);
    assert!(!packet.is_error());
}

#[test]
fn encode_with_payload_counts_payload_in_length() {
    let mut packet = CommandPacket::new(7, 15, 2);
    packet.data = vec![2, 0, 0, 0, 42];
    let encoded = packet.encode();
    assert_eq!(encoded, vec![0, 0, 0, 16, 0, 0, 0, 7, 0, 15, 2, 2, 0, 0, 0, 42]);
}

#[test]
fn encoding_twice_gives_identical_bytes() {
    let mut packet = CommandPacket::new(0xCAFE, 2, 5);
    packet.data = vec![1, 2, 3, 4, 5, 6, 7, 8];
    let first = packet.encode();
    let second = packet.clone().encode();
    assert_eq!(first, second);
}

#[test]
fn reply_decode_reads_error_code_and_payload() {
    let bytes = vec![0, 0, 0, 14, 0, 0, 1, 2, 0x80, 0, 35, 9, 8, 7];
    let packet = ReplyPacket::decode(&bytes).unwrap();
    assert_eq!(packet.id, 0x102);
    assert_eq!(packet.error_code, 35);
    assert!(packet.is_error());
    assert_eq!(packet.data(), &[9, 8, 7]);
}

#[test]
fn reply_decode_rejects_short_and_command_packets() {
    assert!(matches!(ReplyPacket::decode(&[0, 0, 0, 11, 0, 0, 0, 1, 0x80, 0]), Err(JdwpError::Protocol(_))));
    assert!(matches!(
        ReplyPacket::decode(&[0, 0, 0, 11, 0, 0, 0, 1, 0x00, 1, 1]),
        Err(JdwpError::Protocol(_))
    ));
}

#[test]
fn check_error_names_known_and_unknown_codes() {
    let reply = ReplyPacket { id: 1, error_code: 35, data: vec![] };
    match reply.check_error() {
        Err(JdwpError::JdwpErrorCode(code, name)) => {
            assert_eq!(code, 35);
            assert_eq!(name, "INVALID_SLOT");
        }
        other => panic!("unexpected {:?}", other),
    }
    let reply = ReplyPacket { id: 1, error_code: 9999, data: vec![] };
    match reply.check_error() {
        Err(JdwpError::JdwpErrorCode(code, name)) => {
            assert_eq!(code, 9999);
            assert_eq!(name, "UNKNOWN_ERROR");
        }
        other => panic!("unexpected {:?}", other),
    }
    let ok = ReplyPacket { id: 1, error_code: 0, data: vec![] };
    assert!(ok.check_error().is_ok());
    assert_eq!(ok.error_message(), "NONE");
}

#[test]
fn error_names_of_the_required_codes() {
    let table: [(u16, &str); 18] = [
        (0, "NONE"),
        (10, "INVALID_THREAD"),
        (13, "THREAD_NOT_SUSPENDED"),
        (20, "INVALID_OBJECT"),
        (21, "INVALID_CLASS"),
        (23, "INVALID_METHODID"),
        (24, "INVALID_LOCATION"),
        (25, "INVALID_FIELDID"),
        (30, "INVALID_FRAMEID"),
        (31, "NO_MORE_FRAMES"),
        (34, "TYPE_MISMATCH"),
        (35, "INVALID_SLOT"),
        (41, "NOT_FOUND"),
        (99, "NOT_IMPLEMENTED"),
        (101, "ABSENT_INFORMATION"),
        (103, "ILLEGAL_ARGUMENT"),
        (112, "VM_DEAD"),
        (113, "INTERNAL"),
    ];
    for (code, name) in table {
        let reply = ReplyPacket { id: 0, error_code: code, data: vec![] };
        assert_eq!(reply.error_message(), name);
    }
}

#[test]
fn header_accepts_lengths_in_range() {
    let h = parse_header(&[0, 0, 0, 11, 0, 0, 0, 5, 0x80, 0, 0]).unwrap();
    assert_eq!(h.length, 11);
    assert_eq!(h.id, 5);
    assert!(h.is_reply());
    assert_eq!(h.body_len(), 0);
    let max = (MAX_PACKET_SIZE as u32).to_be_bytes();
    let h = parse_header(&[max[0], max[1], max[2], max[3], 0, 0, 0, 6, 0, 64, 100]).unwrap();
    assert_eq!(h.length as usize, MAX_PACKET_SIZE);
    assert!(!h.is_reply());
    assert_eq!(h.body_len(), MAX_PACKET_SIZE - 11);
}

#[test]
fn header_rejects_length_below_eleven() {
    assert!(matches!(parse_header(&[0, 0, 0, 10, 0, 0, 0, 1, 0x80, 0, 0]), Err(JdwpError::Protocol(_))));
    assert!(matches!(parse_header(&[0, 0, 0, 0, 0, 0, 0, 1, 0x80, 0, 0]), Err(JdwpError::Protocol(_))));
}

#[test]
fn header_rejects_length_above_ten_mib() {
    let over = (MAX_PACKET_SIZE as u32 + 1).to_be_bytes();
    assert!(matches!(
        parse_header(&[over[0], over[1], over[2], over[3], 0, 0, 0, 1, 0x80, 0, 0]),
        Err(JdwpError::Protocol(_))
    ));
    assert!(matches!(
        parse_header(&[0xff, 0xff, 0xff, 0xff, 0, 0, 0, 1, 0x80, 0, 0]),
        Err(JdwpError::Protocol(_))
    ));
}

#[test]
fn header_rejects_short_input() {
    assert!(matches!(parse_header(&[0, 0, 0, 11, 0]), Err(JdwpError::Protocol(_))));
}

#[test]
fn handshake_token_is_ascii_literal() {
    assert_eq!(handshake_token(), b"JDWP-Handshake".to_vec());
    assert!(check_handshake(b"JDWP-Handshake").is_ok());
}

#[test]
fn handshake_rejects_anything_else() {
    assert!(matches!(check_handshake(b"JDWP-Handshakf"), Err(JdwpError::InvalidHandshake)));
    assert!(matches!(check_handshake(b"JDWP-Handshak"), Err(JdwpError::InvalidHandshake)));
    assert!(matches!(check_handshake(b""), Err(JdwpError::InvalidHandshake)));
    assert!(matches!(check_handshake(b"HTTP/1.1 200 OK"), Err(JdwpError::InvalidHandshake)));
}

#[test]
fn reply_decode_rejects_out_of_range_length() {
    assert!(matches!(
        ReplyPacket::decode(&[0, 0, 0, 0, 0, 0, 0, 1, 0x80, 0, 0]),
        Err(JdwpError::Protocol(_))
    ));
    assert!(matches!(
        ReplyPacket::decode(&[0, 0, 0, 10, 0, 0, 0, 1, 0x80, 0, 0]),
        Err(JdwpError::Protocol(_))
    ));
    assert!(matches!(
        ReplyPacket::decode(&[0, 0x40, 0, 0, 0, 0, 0, 1, 0x80, 0, 0]),
        Err(JdwpError::Protocol(_))
    ));
}

#[test]
fn reply_decode_rejects_length_that_differs_from_packet() {
    assert!(matches!(
        ReplyPacket::decode(&[0, 0, 0, 12, 0, 0, 0, 1, 0x80, 0, 0]),
        Err(JdwpError::Protocol(_))
    ));
    assert!(matches!(
        ReplyPacket::decode(&[0, 0, 0, 11, 0, 0, 0, 1, 0x80, 0, 0, 5]),
        Err(JdwpError::Protocol(_))
    ));
}
