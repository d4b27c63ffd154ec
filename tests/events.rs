use jdwp_client::events::{parse_event_packet, read_location, EventKind};
use jdwp_client::protocol::JdwpError;
use jdwp_client::types::Location;

fn location_bytes(tag: u8, class_id: u64, method_id: u64, index: u64) -> Vec<u8> {
    let mut v = vec![tag];
    v.extend_from_slice(&class_id.to_be_bytes());
    v.extend_from_slice(&method_id.to_be_bytes());
    v.extend_from_slice(&index.to_be_bytes());
    v
}

fn event_head(kind: u8, request_id: i32) -> Vec<u8> {
    let mut v = vec![kind];
    v.extend_from_slice(&request_id.to_be_bytes());
    v
}

#[test]
fn read_location_reads_four_fields() {
    let bytes = location_bytes(1, 2, 3, 4);
    let mut cur: &[u8] = &bytes;
    assert_eq!(read_location(&mut cur).unwrap(), Location { type_tag: 1, class_id: 2, method_id: 3, index: 4 });
    assert!(cur.is_empty());
    let mut short: &[u8] = &bytes[..20];
    assert!(matches!(read_location(&mut short), Err(JdwpError::Protocol(_))));
}

#[test]
fn composite_with_every_known_kind() {
    let mut data = vec![1u8];
    data.extend_from_slice(&7i32.to_be_bytes());
    data.extend(event_head(90, 0));
    data.extend_from_slice(&1u64.to_be_bytes());
    data.extend(event_head(6, 3));
    data.extend_from_slice(&2u64.to_be_bytes());
    data.extend(event_head(7, 4));
    data.extend_from_slice(&2u64.to_be_bytes());
    data.extend(event_head(8, 5));
    data.extend_from_slice(&3u64.to_be_bytes());
    data.extend_from_slice(&0x44u64.to_be_bytes());
    data.extend_from_slice(&3u32.to_be_bytes());
    data.extend_from_slice(b"LA;");
    data.extend_from_slice(&7i32.to_be_bytes());
    data.extend(event_head(40, 6));
    data.extend_from_slice(&3u64.to_be_bytes());
    data.extend(location_bytes(1, 0x44, 0x55, 0));
    data.extend(event_head(4, 7));
    data.extend_from_slice(&3u64.to_be_bytes());
    data.extend(location_bytes(1, 0x44, 0x55, 9));
    data.extend_from_slice(&0x66u64.to_be_bytes());
    data.extend(location_bytes(0, 0, 0, 0));
    data.extend(event_head(99, 0));
    let set = parse_event_packet(&data).unwrap();
    assert_eq!(set.suspend_policy, 1);
    assert_eq!(set.events.len(), 7);
    assert!(matches!(set.events[0].details, EventKind::VMStart { thread: 1 }));
    assert!(matches!(set.events[1].details, EventKind::ThreadStart { thread: 2 }));
    assert!(matches!(set.events[2].details, EventKind::ThreadDeath { thread: 2 }));
    match &set.events[3].details {
        EventKind::ClassPrepare { thread, ref_type, signature, status } => {
            assert_eq!((*thread, *ref_type, signature.as_str(), *status), (3, 0x44, "LA;", 7));
        }
        other => panic!("unexpected {:?}", other),
    }
    assert_eq!(set.events[4].kind, 40);
    assert!(matches!(set.events[4].details, EventKind::MethodEntry { thread: 3, .. }));
    match &set.events[5].details {
        EventKind::Exception { exception, catch_location, location, .. } => {
            assert_eq!(*exception, 0x66);
            assert_eq!(location.index, 9);
            assert!(catch_location.is_none());
        }
        other => panic!("unexpected {:?}", other),
    }
    assert!(matches!(set.events[6].details, EventKind::VMDeath));
}

#[test]
fn exception_with_catch_location() {
    let mut data = vec![2u8];
    data.extend_from_slice(&1i32.to_be_bytes());
    data.extend(event_head(4, 1));
    data.extend_from_slice(&3u64.to_be_bytes());
    data.extend(location_bytes(1, 0x44, 0x55, 9));
    data.extend_from_slice(&0x66u64.to_be_bytes());
    data.extend(location_bytes(1, 0x44, 0x56, 12));
    let set = parse_event_packet(&data).unwrap();
    match &set.events[0].details {
        EventKind::Exception { catch_location, .. } => {
            assert_eq!(*catch_location, Some(Location { type_tag: 1, class_id: 0x44, method_id: 0x56, index: 12 }));
        }
        other => panic!("unexpected {:?}", other),
    }
}

#[test]
fn unknown_kind_ends_the_composite() {
    let mut data = vec![0u8];
    data.extend_from_slice(&3i32.to_be_bytes());
    data.extend(event_head(6, 1));
    data.extend_from_slice(&9u64.to_be_bytes());
    data.extend(event_head(55, 2));
    data.extend_from_slice(&[0xde, 0xad]);
    data.extend(event_head(7, 3));
    data.extend_from_slice(&9u64.to_be_bytes());
    let set = parse_event_packet(&data).unwrap();
    assert_eq!(set.events.len(), 2);
    assert!(matches!(set.events[0].details, EventKind::ThreadStart { thread: 9 }));
    assert_eq!(set.events[1].kind, 55);
    assert_eq!(set.events[1].request_id, 2);
    assert!(matches!(set.events[1].details, EventKind::Unknown { kind: 55 }));
}

#[test]
fn truncated_composite_is_protocol_error() {
    let mut data = vec![2u8];
    data.extend_from_slice(&2i32.to_be_bytes());
    data.extend(event_head(2, 1));
    data.extend_from_slice(&9u64.to_be_bytes());
    data.extend(location_bytes(1, 1, 1, 1));
    assert!(matches!(parse_event_packet(&data), Err(JdwpError::Protocol(_))));
    assert!(matches!(parse_event_packet(&[2u8, 0, 0]), Err(JdwpError::Protocol(_))));
}

#[test]
fn empty_composite() {
    let set = parse_event_packet(&[2u8, 0, 0, 0, 0]).unwrap();
    assert_eq!(set.suspend_policy, 2);
    assert!(set.events.is_empty());
}
