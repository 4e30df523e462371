use nur_worker::connection::{
    alloc_pointer, reader_directive, ConnAction, ConnEvent, ConnPhase, Connection, GuestValue,
    ReadEvent, ReaderDirective,
};
use nur_worker::handshake::HANDSHAKE_OK;
use nur_worker::intrinsics::{guest_memory_range, log_message, send_message, NurWasmMessage};

/// Drives a connection through a whole event list and collects the actions.
fn run(events: Vec<ConnEvent>) -> (ConnPhase, Vec<ConnAction>) {
    let mut conn = Connection::accepted();
    let mut actions = Vec::new();
    for event in events {
        if let Some(action) = conn.step(event) {
            actions.push(action);
        }
    }
    (conn.phase, actions)
}

#[test]
fn test_echo_guest_connection() {
    // The guest echoes the request body wrapped in a minimal HTTP reply;
    // the socket sees the OK byte, then exactly those bytes, then the
    // shutdown.
    let reply = b"HTTP/1.1 200 OK\r\nContent-Length: 5\r\n\r\nhello".to_vec();
    let (phase, actions) = run(vec![
        ConnEvent::FetchSucceeded,
        ConnEvent::GuestSend { data: reply.clone() },
        ConnEvent::GuestAbort,
        ConnEvent::SiblingFinished,
    ]);
    assert_eq!(phase, ConnPhase::Closed);
    assert_eq!(actions.len(), 3);
    match &actions[0] {
        ConnAction::WriteStatus { status } => assert_eq!(*status, HANDSHAKE_OK),
        other => panic!("expected the status byte first, got {other:?}"),
    }
    match &actions[1] {
        ConnAction::WriteBody { data } => assert_eq!(data, &reply),
        other => panic!("expected the echoed body, got {other:?}"),
    }
    assert!(matches!(actions[2], ConnAction::ShutdownWrite));
}

#[test]
fn test_partial_body_single_response() {
    // The request body arrives in three segments; the guest answers once,
    // after the last one. The socket output is exactly one response.
    let segments: Vec<Vec<u8>> = vec![b"POST / HT".to_vec(), b"TP/1.1\r\n\r\nab".to_vec(),
        b"c".to_vec()];
    for segment in &segments {
        match reader_directive(ReadEvent::Received { buf: segment.clone() }) {
            ReaderDirective::FeedGuest { chunk } => assert_eq!(&chunk, segment),
            other => panic!("expected the segment fed to the guest, got {other:?}"),
        }
    }

    let response = b"HTTP/1.1 200 OK\r\n\r\nmoo".to_vec();
    let (_, actions) = run(vec![
        ConnEvent::FetchSucceeded,
        ConnEvent::GuestSend { data: response.clone() },
        ConnEvent::GuestAbort,
    ]);
    let bodies: Vec<&Vec<u8>> = actions
        .iter()
        .filter_map(|a| match a {
            ConnAction::WriteBody { data } => Some(data),
            _ => None,
        })
        .collect();
    assert_eq!(bodies.len(), 1);
    assert_eq!(bodies[0], &response);
}

#[test]
fn test_exactly_one_status_byte_per_connection() {
    let (_, actions) = run(vec![
        ConnEvent::FetchSucceeded,
        ConnEvent::GuestLog { text: String::from("starting") },
        ConnEvent::GuestSend { data: vec![1] },
        ConnEvent::GuestSend { data: vec![2] },
        ConnEvent::ReaderFinished,
        ConnEvent::SiblingFinished,
    ]);
    let statuses: Vec<u8> = actions
        .iter()
        .filter_map(|a| match a {
            ConnAction::WriteStatus { status } => Some(*status),
            _ => None,
        })
        .collect();
    assert_eq!(statuses, vec![HANDSHAKE_OK]);
    // The status byte comes before any body byte.
    assert!(matches!(actions[0], ConnAction::WriteStatus { .. }));
}

#[test]
fn test_bodies_keep_emission_order() {
    let (_, actions) = run(vec![
        ConnEvent::FetchSucceeded,
        ConnEvent::GuestSend { data: vec![1] },
        ConnEvent::GuestLog { text: String::from("between") },
        ConnEvent::GuestSend { data: vec![2] },
        ConnEvent::GuestSend { data: vec![3] },
        ConnEvent::GuestAbort,
    ]);
    let bodies: Vec<Vec<u8>> = actions
        .iter()
        .filter_map(|a| match a {
            ConnAction::WriteBody { data } => Some(data.clone()),
            _ => None,
        })
        .collect();
    assert_eq!(bodies, vec![vec![1], vec![2], vec![3]]);
}

#[test]
fn test_abort_shuts_down_write_at_once() {
    let mut conn = Connection::accepted();
    conn.step(ConnEvent::FetchSucceeded);
    assert_eq!(conn.phase, ConnPhase::Running);
    let action = conn.step(ConnEvent::GuestAbort);
    assert!(matches!(action, Some(ConnAction::ShutdownWrite)));
    assert_eq!(conn.phase, ConnPhase::Terminating);
}

#[test]
fn test_sends_after_terminating_are_dropped() {
    let (phase, actions) = run(vec![
        ConnEvent::FetchSucceeded,
        ConnEvent::GuestAbort,
        ConnEvent::GuestSend { data: vec![9] },
        ConnEvent::SiblingFinished,
    ]);
    assert_eq!(phase, ConnPhase::Closed);
    assert!(actions.iter().all(|a| !matches!(a, ConnAction::WriteBody { .. })));
}

#[test]
fn test_zero_length_read_stops_reader() {
    // A read of zero bytes ends the reader without a guest call.
    assert!(matches!(
        reader_directive(ReadEvent::Received { buf: Vec::new() }),
        ReaderDirective::Stop
    ));
    assert!(matches!(reader_directive(ReadEvent::Failed), ReaderDirective::Stop));
}

#[test]
fn test_nonempty_read_feeds_guest() {
    match reader_directive(ReadEvent::Received { buf: vec![10, 20] }) {
        ReaderDirective::FeedGuest { chunk } => assert_eq!(chunk, vec![10, 20]),
        other => panic!("expected the bytes fed to the guest, got {other:?}"),
    }
}

#[test]
fn test_alloc_non_i32_terminates() {
    // A guest allocator that answers with anything but one 32-bit integer
    // leaves the reader without an offset: the connection ends.
    assert_eq!(alloc_pointer(&vec![GuestValue::I64 { value: 3 }]), None);
    assert_eq!(alloc_pointer(&vec![GuestValue::Other]), None);
    assert_eq!(alloc_pointer(&Vec::new()), None);
    assert_eq!(alloc_pointer(&vec![GuestValue::I32 { value: 4096 }]), Some(4096));
}

#[test]
fn test_guest_memory_range_bounds() {
    assert_eq!(guest_memory_range(0, 4, 16), Some((0, 4)));
    assert_eq!(guest_memory_range(12, 4, 16), Some((12, 16)));
    assert_eq!(guest_memory_range(13, 4, 16), None);
    assert_eq!(guest_memory_range(-1, 4, 16), None);
    assert_eq!(guest_memory_range(0, -1, 16), None);
    assert_eq!(guest_memory_range(0, 0, 0), Some((0, 0)));
}

#[test]
fn test_log_message_decodes_text() {
    match log_message(&b"guest says hi".to_vec()) {
        NurWasmMessage::LogMessage { log } => assert_eq!(log, "guest says hi"),
        other => panic!("expected a log message, got {other:?}"),
    }
    // Invalid UTF-8 is replaced, not refused.
    match log_message(&vec![0xff]) {
        NurWasmMessage::LogMessage { log } => assert_eq!(log, "\u{fffd}"),
        other => panic!("expected a log message, got {other:?}"),
    }
}

#[test]
fn test_send_and_end_messages() {
    match send_message(vec![1, 2]) {
        NurWasmMessage::SendData { data } => assert_eq!(data, vec![1, 2]),
        other => panic!("expected a data message, got {other:?}"),
    }
    assert!(matches!(
        nur_worker::intrinsics::end_message(),
        NurWasmMessage::Abort
    ));
}

#[test]
fn test_max_target_width_tracks_maximum() {
    let w = nur_worker::logging::max_target_width(0, "server");
    assert_eq!(w, 6);
    let w = nur_worker::logging::max_target_width(w, "hs");
    assert_eq!(w, 6);
    let w = nur_worker::logging::max_target_width(w, "connection");
    assert_eq!(w, 10);
}
