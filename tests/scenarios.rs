use jdwp_client::eventloop::{Demux, Route};
use jdwp_client::eventrequest::{event_clear_request, event_set_request, parse_event_set_reply, SuspendPolicy};
use jdwp_client::events::{parse_event_packet, EventKind, EventModifier};
use jdwp_client::protocol::{check_handshake, handshake_token, JdwpError, ReplyPacket};
use jdwp_client::reftype::{methods_request, parse_methods_reply};
use jdwp_client::stackframe::{frame_values_request, parse_values_reply, VariableSlot};
use jdwp_client::types::{Location, ValueData};
use jdwp_client::vm::{classes_by_signature_request, parse_classes_by_signature_reply, parse_version_reply, version_request};

const TYPE_ID: u64 = 0x0123456789ABCDEF;
const METHOD_ID: u64 = 0xDEADBEEFCAFEBABE;

fn wire_string(s: &str) -> Vec<u8> {
    let mut v = (s.len() as u32).to_be_bytes().to_vec();
    v.extend_from_slice(s.as_bytes());
    v
}

fn reply_bytes(id: u32, error_code: u16, data: &[u8]) -> Vec<u8> {
    let mut v = ((11 + data.len()) as u32).to_be_bytes().to_vec();
    v.extend_from_slice(&id.to_be_bytes());
    v.push(0x80);
    v.extend_from_slice(&error_code.to_be_bytes());
    v.extend_from_slice(data);
    v
}

/// Submit `id` and route the peer's scripted reply back through the demultiplexer.
fn round_trip(demux: &mut Demux, id: u32, error_code: u16, data: &[u8]) -> ReplyPacket {
    assert!(demux.record_sent(id, 0));
    match demux.route(&reply_bytes(id, error_code, data)) {
        Route::Reply { id: got, reply } => {
            assert_eq!(got, id);
            reply.unwrap()
        }
        other => panic!("unexpected {:?}", other),
    }
}

fn breakpoint_composite(request_id: i32) -> Vec<u8> {
    let mut body = vec![2u8];
    body.extend_from_slice(&1i32.to_be_bytes());
    body.push(2);
    body.extend_from_slice(&request_id.to_be_bytes());
    body.extend_from_slice(&0x1111u64.to_be_bytes());
    body.push(1);
    body.extend_from_slice(&TYPE_ID.to_be_bytes());
    body.extend_from_slice(&METHOD_ID.to_be_bytes());
    body.extend_from_slice(&0u64.to_be_bytes());
    let mut v = ((11 + body.len()) as u32).to_be_bytes().to_vec();
    v.extend_from_slice(&0u32.to_be_bytes());
    v.extend_from_slice(&[0, 64, 100]);
    v.extend(body);
    v
}

fn expect_breakpoint(route: Route) {
    match route {
        Route::Events(set) => {
            assert_eq!(set.suspend_policy, 2);
            assert_eq!(set.events.len(), 1);
            assert_eq!(set.events[0].kind, 2);
            assert_eq!(set.events[0].request_id, 42);
            match &set.events[0].details {
                EventKind::Breakpoint { thread, location } => {
                    assert_eq!(*thread, 0x1111);
                    assert_eq!(*location, Location { type_tag: 1, class_id: TYPE_ID, method_id: METHOD_ID, index: 0 });
                }
                other => panic!("unexpected {:?}", other),
            }
        }
        other => panic!("unexpected {:?}", other),
    }
}

#[test]
fn connect_handshake_then_version() {
    assert_eq!(handshake_token(), b"JDWP-Handshake".to_vec());
    assert!(check_handshake(b"JDWP-Handshake").is_ok());
    let mut demux = Demux::new();
    let request = version_request(1);
    assert_eq!(request.encode(), vec![0, 0, 0, 11, 0, 0, 0, 1, 0, 1, 1]);
    let mut data = wire_string("Oracle HotSpot");
    data.extend_from_slice(&1i32.to_be_bytes());
    data.extend_from_slice(&8i32.to_be_bytes());
    data.extend(wire_string("17.0.1"));
    data.extend(wire_string("HotSpot 64-Bit"));
    let reply = round_trip(&mut demux, 1, 0, &data);
    let version = parse_version_reply(&reply).unwrap();
    assert_eq!(version.description, "Oracle HotSpot");
    assert_eq!(version.jdwp_major, 1);
    assert_eq!(version.jdwp_minor, 8);
    assert_eq!(version.vm_version, "17.0.1");
    assert_eq!(version.vm_name, "HotSpot 64-Bit");
}

#[test]
fn bad_handshake_is_refused() {
    assert!(matches!(check_handshake(b"JDWP-HANDSHAKE"), Err(JdwpError::InvalidHandshake)));
}

#[test]
fn classes_by_signature_finds_one_class() {
    let mut demux = Demux::new();
    let request = classes_by_signature_request(2, "Lcom/example/Foo;");
    assert_eq!((request.command_set, request.command), (1, 2));
    assert_eq!(request.data, wire_string("Lcom/example/Foo;"));
    let mut data = 1i32.to_be_bytes().to_vec();
    data.push(1);
    data.extend_from_slice(&TYPE_ID.to_be_bytes());
    data.extend_from_slice(&7i32.to_be_bytes());
    let reply = round_trip(&mut demux, 2, 0, &data);
    let classes = parse_classes_by_signature_reply(&reply, "Lcom/example/Foo;").unwrap();
    assert_eq!(classes.len(), 1);
    assert_eq!(classes[0].ref_type_tag, 1);
    assert_eq!(classes[0].type_id, TYPE_ID);
    assert_eq!(classes[0].status, 7);
    assert_eq!(classes[0].signature, "Lcom/example/Foo;");
}

#[test]
fn methods_of_the_class() {
    let mut demux = Demux::new();
    let request = methods_request(3, TYPE_ID);
    assert_eq!((request.command_set, request.command), (2, 5));
    assert_eq!(request.data, TYPE_ID.to_be_bytes().to_vec());
    let mut data = 1i32.to_be_bytes().to_vec();
    data.extend_from_slice(&METHOD_ID.to_be_bytes());
    data.extend(wire_string("hello"));
    data.extend(wire_string("()Ljava/lang/String;"));
    data.extend_from_slice(&1i32.to_be_bytes());
    let reply = round_trip(&mut demux, 3, 0, &data);
    let methods = parse_methods_reply(&reply).unwrap();
    assert_eq!(methods.len(), 1);
    assert_eq!(methods[0].name, "hello");
    assert_eq!(methods[0].method_id, METHOD_ID);
    assert_eq!(methods[0].signature, "()Ljava/lang/String;");
    assert_eq!(methods[0].mod_bits, 1);
}

#[test]
fn breakpoint_set_then_hit() {
    let mut demux = Demux::new();
    let location = Location { type_tag: 1, class_id: TYPE_ID, method_id: METHOD_ID, index: 0 };
    let request = event_set_request(4, 2, SuspendPolicy::All, &vec![EventModifier::LocationOnly(location)]);
    assert_eq!((request.command_set, request.command), (15, 1));
    let mut want = vec![2u8, 2, 0, 0, 0, 1, 7, 1];
    want.extend_from_slice(&TYPE_ID.to_be_bytes());
    want.extend_from_slice(&METHOD_ID.to_be_bytes());
    want.extend_from_slice(&0u64.to_be_bytes());
    assert_eq!(request.data, want);
    let reply = round_trip(&mut demux, 4, 0, &42i32.to_be_bytes());
    assert_eq!(parse_event_set_reply(&reply).unwrap(), 42);
    expect_breakpoint(demux.route(&breakpoint_composite(42)));
    let set = parse_event_packet(&breakpoint_composite(42)[11..]).unwrap();
    assert_eq!(set.events.len(), 1);
}

#[test]
fn breakpoint_clear_then_late_event_still_parsed() {
    let mut demux = Demux::new();
    let request = event_clear_request(5, 2, 42);
    assert_eq!(request.data, vec![2, 0, 0, 0, 42]);
    let reply = round_trip(&mut demux, 5, 0, &[]);
    assert_eq!(reply.error_code, 0);
    assert!(reply.data.is_empty());
    assert!(reply.check_error().is_ok());
    expect_breakpoint(demux.route(&breakpoint_composite(42)));
}

#[test]
fn invalid_slot_error_then_connection_still_usable() {
    let mut demux = Demux::new();
    let request = frame_values_request(6, 0x1111, 0x2222, &vec![VariableSlot { slot: 9, sig_byte: b'I' }]);
    assert_eq!((request.command_set, request.command), (16, 1));
    let reply = round_trip(&mut demux, 6, 35, &[]);
    match parse_values_reply(&reply) {
        Err(JdwpError::JdwpErrorCode(code, name)) => {
            assert_eq!(code, 35);
            assert_eq!(name, "INVALID_SLOT");
        }
        other => panic!("unexpected {:?}", other),
    }
    let mut data = 1i32.to_be_bytes().to_vec();
    data.push(b'I');
    data.extend_from_slice(&5i32.to_be_bytes());
    let reply = round_trip(&mut demux, 7, 0, &data);
    let values = parse_values_reply(&reply).unwrap();
    assert_eq!(values[0].data, ValueData::Int(5));
}
