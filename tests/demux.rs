use jdwp_client::eventloop::{Demux, Route, REPLY_TIMEOUT_MS};
use jdwp_client::events::EventKind;
use jdwp_client::protocol::JdwpError;

fn reply(id: u32, error_code: u16, data: &[u8]) -> Vec<u8> {
    let mut v = ((11 + data.len()) as u32).to_be_bytes().to_vec();
    v.extend_from_slice(&id.to_be_bytes());
    v.push(0x80);
    v.extend_from_slice(&error_code.to_be_bytes());
    v.extend_from_slice(data);
    v
}

fn thread_start_event(thread: u64) -> Vec<u8> {
    let mut body = vec![0u8];
    body.extend_from_slice(&1i32.to_be_bytes());
    body.push(6);
    body.extend_from_slice(&0i32.to_be_bytes());
    body.extend_from_slice(&thread.to_be_bytes());
    let mut v = ((11 + body.len()) as u32).to_be_bytes().to_vec();
    v.extend_from_slice(&0u32.to_be_bytes());
    v.extend_from_slice(&[0, 64, 100]);
    v.extend(body);
    v
}

#[test]
fn replies_in_reverse_order_reach_their_own_submission() {
    let mut demux = Demux::new();
    for id in 1..=5u32 {
        assert!(demux.record_sent(id, 0));
    }
    for id in (1..=5u32).rev() {
        match demux.route(&reply(id, 0, &id.to_be_bytes())) {
            Route::Reply { id: got, reply } => {
                assert_eq!(got, id);
                let reply = reply.unwrap();
                assert_eq!(reply.id, id);
                assert_eq!(reply.data, id.to_be_bytes().to_vec());
            }
            other => panic!("unexpected {:?}", other),
        }
    }
    assert_eq!(demux.pending_len(), 0);
}

#[test]
fn event_between_write_and_reply_changes_nothing() {
    let mut demux = Demux::new();
    assert!(demux.record_sent(7, 0));
    match demux.route(&thread_start_event(0x22)) {
        Route::Events(set) => {
            assert_eq!(set.events.len(), 1);
            assert!(matches!(set.events[0].details, EventKind::ThreadStart { thread: 0x22 }));
        }
        other => panic!("unexpected {:?}", other),
    }
    assert!(demux.is_pending(7));
    assert!(matches!(demux.route(&reply(7, 0, &[])), Route::Reply { id: 7, .. }));
    assert_eq!(demux.pending_len(), 0);
}

#[test]
fn unanswered_submission_times_out() {
    let mut demux = Demux::new();
    assert!(demux.record_sent(1, 1_000));
    assert!(demux.record_sent(2, 20_000));
    assert!(demux.sweep(1_000 + REPLY_TIMEOUT_MS).is_empty());
    assert_eq!(demux.pending_len(), 2);
    assert_eq!(demux.sweep(1_001 + REPLY_TIMEOUT_MS), vec![1]);
    assert_eq!(demux.pending_len(), 1);
    assert!(!demux.is_pending(1));
    assert!(demux.is_pending(2));
    // the late reply no longer finds a waiter
    assert!(matches!(demux.route(&reply(1, 0, &[])), Route::Unmatched { id: 1 }));
}

#[test]
fn reply_for_unknown_id_is_dropped() {
    let mut demux = Demux::new();
    assert!(demux.record_sent(3, 0));
    assert!(matches!(demux.route(&reply(99, 0, &[])), Route::Unmatched { id: 99 }));
    assert_eq!(demux.pending_len(), 1);
    assert!(matches!(demux.route(&reply(3, 0, &[])), Route::Reply { id: 3, .. }));
}

#[test]
fn shutdown_fails_every_waiter_and_refuses_more() {
    let mut demux = Demux::new();
    assert!(demux.record_sent(4, 0));
    assert!(demux.record_sent(5, 0));
    assert_eq!(demux.shutdown(), vec![4, 5]);
    assert!(demux.is_closed());
    assert_eq!(demux.pending_len(), 0);
    assert!(!demux.record_sent(6, 0));
    assert_eq!(demux.pending_len(), 0);
}

#[test]
fn reused_id_replaces_older_entry() {
    let mut demux = Demux::new();
    assert!(demux.record_sent(8, 0));
    assert!(demux.record_sent(8, 5));
    assert_eq!(demux.pending_len(), 1);
    assert_eq!(demux.sweep(5 + REPLY_TIMEOUT_MS), Vec::<u32>::new());
}

#[test]
fn malformed_event_packet_is_dropped() {
    let mut demux = Demux::new();
    assert!(demux.record_sent(1, 0));
    let bad = vec![0, 0, 0, 13, 0, 0, 0, 0, 0, 64, 100, 2, 0];
    assert!(matches!(demux.route(&bad), Route::Dropped(JdwpError::Protocol(_))));
    assert!(matches!(demux.route(&[0, 0, 0]), Route::Dropped(JdwpError::Protocol(_))));
    assert_eq!(demux.pending_len(), 1);
}
