use net_session::{
    acknowledge, frame_payload, push_decimal, ClientSystem, Delivery, EventStream, InboundEvent,
    LivenessWindow, OutboundMessage, PeerAddress, ServerSystem, Severity, SimulationTick, Urgency,
    NANOS_PER_SECOND,
};

fn v4(a: u8, b: u8, c: u8, d: u8, port: u16) -> PeerAddress {
    PeerAddress { v6: false, ip: u32::from_be_bytes([a, b, c, d]) as u128, port }
}

fn server_addr() -> PeerAddress {
    v4(127, 0, 0, 1, 2222)
}

fn client_with(stream: &EventStream) -> ClientSystem {
    ClientSystem::new(stream.register_reader(), server_addr(), LivenessWindow::standard())
}

fn tick_at(time_ns: u64, frames: Vec<u32>) -> SimulationTick {
    SimulationTick { absolute_time_ns: time_ns, frames }
}

fn message(from: PeerAddress, payload: &[u8]) -> InboundEvent {
    InboundEvent::MessageReceived(from, payload.to_vec())
}

fn assert_paced(sends: &[OutboundMessage], frames: &[u32], time_ns: u64) {
    assert_eq!(sends.len(), frames.len());
    for (m, f) in sends.iter().zip(frames) {
        assert_eq!(m.destination, server_addr());
        assert_eq!(m.delivery, Delivery::Unreliable);
        assert_eq!(m.urgency, Urgency::OnTick);
        let want = format!("CL: sim_frame:{},abs_time_ns:{}", f, time_ns);
        assert_eq!(m.payload, want.into_bytes());
    }
}

#[test]
fn three_frames_outside_window_send_three_messages_in_order() {
    let stream = EventStream::new();
    let client = client_with(&stream);
    let t = 2 * NANOS_PER_SECOND;
    let sends = client.tick(&tick_at(t, vec![1, 2, 3]));
    assert_paced(&sends, &[1, 2, 3], t);
    assert_eq!(sends[0].payload, b"CL: sim_frame:1,abs_time_ns:2000000000".to_vec());
}

#[test]
fn frame_inside_window_sends_nothing() {
    let stream = EventStream::new();
    let client = client_with(&stream);
    let sends = client.tick(&tick_at(7_500_000_000, vec![7]));
    assert!(sends.is_empty());
}

#[test]
fn many_frames_inside_window_send_nothing() {
    let stream = EventStream::new();
    let client = client_with(&stream);
    for t in [5_000_000_001u64, 6 * NANOS_PER_SECOND, 9_999_999_999] {
        let sends = client.tick(&tick_at(t, (0..50).collect()));
        assert!(sends.is_empty());
    }
}

#[test]
fn window_bounds_are_exclusive() {
    let stream = EventStream::new();
    let client = client_with(&stream);
    for t in [5 * NANOS_PER_SECOND, 10 * NANOS_PER_SECOND] {
        let sends = client.tick(&tick_at(t, vec![4, 5]));
        assert_paced(&sends, &[4, 5], t);
    }
}

#[test]
fn one_message_per_frame_outside_window() {
    let stream = EventStream::new();
    let client = client_with(&stream);
    let cases: Vec<(u64, Vec<u32>)> = vec![
        (0, vec![]),
        (0, vec![1]),
        (4_999_999_999, vec![10, 11, 12, 13]),
        (12 * NANOS_PER_SECOND, vec![u32::MAX]),
        (u64::MAX, vec![0, 9, 10]),
    ];
    for (t, frames) in cases {
        let sends = client.tick(&tick_at(t, frames.clone()));
        assert_paced(&sends, &frames, t);
    }
}

#[test]
fn configured_window_is_honoured() {
    let stream = EventStream::new();
    let window = LivenessWindow { start_ns: 100, end_ns: 200 };
    let client = ClientSystem::new(stream.register_reader(), server_addr(), window);
    assert!(client.tick(&tick_at(150, vec![1])).is_empty());
    assert_eq!(client.tick(&tick_at(200, vec![1])).len(), 1);
    assert_eq!(client.tick(&tick_at(100, vec![1])).len(), 1);
    assert!(window.suppresses(101));
    assert!(!window.suppresses(100));
    assert!(!window.suppresses(200));
}

#[test]
fn payload_has_exact_text() {
    assert_eq!(frame_payload(0, 0), b"CL: sim_frame:0,abs_time_ns:0".to_vec());
    assert_eq!(
        frame_payload(42, 7_500_000_000),
        b"CL: sim_frame:42,abs_time_ns:7500000000".to_vec()
    );
}

#[test]
fn decimal_digits_are_exact() {
    let mut out = b"x=".to_vec();
    push_decimal(&mut out, 0);
    assert_eq!(out, b"x=0".to_vec());
    let mut out = Vec::new();
    push_decimal(&mut out, 1090);
    assert_eq!(out, b"1090".to_vec());
    let mut out = Vec::new();
    push_decimal(&mut out, u64::MAX);
    assert_eq!(out, u64::MAX.to_string().into_bytes());
}

#[test]
fn drain_with_nothing_new_is_empty() {
    let mut stream = EventStream::new();
    let mut client = client_with(&stream);
    assert!(client.drain_events(&stream).is_empty());
    stream.publish(InboundEvent::PeerConnected(server_addr()));
    stream.publish(message(server_addr(), b"ok"));
    let first = client.drain_events(&stream);
    assert_eq!(first.len(), 2);
    assert!(client.drain_events(&stream).is_empty());
    assert!(client.drain_events(&stream).is_empty());
    stream.publish(InboundEvent::PeerDisconnected(server_addr()));
    let third = client.drain_events(&stream);
    assert_eq!(third.len(), 1);
    assert!(matches!(third[0], InboundEvent::PeerDisconnected(a) if a == server_addr()));
}

#[test]
fn reader_sees_only_events_after_registration() {
    let mut stream = EventStream::new();
    stream.publish(InboundEvent::PeerConnected(server_addr()));
    let mut reader = stream.register_reader();
    assert!(stream.read(&mut reader).is_empty());
    stream.publish(InboundEvent::ReceiveFailed("late".to_string()));
    let got = stream.read(&mut reader);
    assert_eq!(got.len(), 1);
    assert_eq!(stream.len(), 2);
}

#[test]
fn two_readers_each_see_every_event_once() {
    let mut stream = EventStream::new();
    let mut client = client_with(&stream);
    let mut server = ServerSystem::new(stream.register_reader());
    let a = v4(10, 0, 0, 1, 4000);
    stream.publish(message(a, b"one"));
    let client_first = client.drain_events(&stream);
    stream.publish(message(a, b"two"));
    let server_all = server.drain_events(&stream);
    let client_second = client.drain_events(&stream);
    let payloads = |evs: &[InboundEvent]| -> Vec<Vec<u8>> {
        evs.iter()
            .map(|e| match e {
                InboundEvent::MessageReceived(_, p) => p.clone(),
                _ => panic!("unexpected event"),
            })
            .collect()
    };
    let mut client_all = payloads(&client_first);
    client_all.extend(payloads(&client_second));
    assert_eq!(client_all, vec![b"one".to_vec(), b"two".to_vec()]);
    assert_eq!(payloads(&server_all.events), vec![b"one".to_vec(), b"two".to_vec()]);
    assert!(server.drain_events(&stream).events.is_empty());
    assert!(client.drain_events(&stream).is_empty());
}

#[test]
fn server_acknowledges_each_message_in_arrival_order() {
    let mut stream = EventStream::new();
    let mut server = ServerSystem::new(stream.register_reader());
    let addr_a = v4(192, 168, 0, 2, 5000);
    let addr_b = v4(192, 168, 0, 3, 5001);
    stream.publish(message(addr_a, b"hello"));
    stream.publish(message(addr_b, b"world"));
    let drain = server.drain_events(&stream);
    assert_eq!(drain.events.len(), 2);
    assert_eq!(drain.replies.len(), 2);
    assert_eq!(drain.replies[0].destination, addr_a);
    assert_eq!(drain.replies[1].destination, addr_b);
    for r in &drain.replies {
        assert_eq!(r.payload, b"ok".to_vec());
        assert_eq!(r.delivery, Delivery::Unreliable);
        assert_eq!(r.urgency, Urgency::OnTick);
    }
}

#[test]
fn server_acknowledges_nothing_but_messages() {
    let a = v4(1, 2, 3, 4, 1);
    let b = PeerAddress { v6: true, ip: 1, port: 9 };
    let lost = OutboundMessage {
        destination: a,
        payload: b"x".to_vec(),
        delivery: Delivery::Unreliable,
        urgency: Urgency::OnTick,
    };
    let events = vec![
        InboundEvent::PeerConnected(a),
        message(b, b""),
        InboundEvent::PeerDisconnected(a),
        InboundEvent::ReceiveFailed("recv".to_string()),
        InboundEvent::SendFailed("send".to_string(), lost),
        InboundEvent::ConnectionFailed("conn".to_string(), Some(a)),
        message(b, b"again"),
        message(a, b"third"),
    ];
    let replies = acknowledge(&events);
    let dests: Vec<PeerAddress> = replies.iter().map(|r| r.destination).collect();
    assert_eq!(dests, vec![b, b, a]);
    assert!(acknowledge(&Vec::new()).is_empty());
}

#[test]
fn send_failure_is_reported_and_not_retried() {
    let mut stream = EventStream::new();
    let mut client = client_with(&stream);
    let original = OutboundMessage {
        destination: server_addr(),
        payload: frame_payload(1, 0),
        delivery: Delivery::Unreliable,
        urgency: Urgency::OnTick,
    };
    stream.publish(InboundEvent::SendFailed("connection refused".to_string(), original));
    let drained = client.drain_events(&stream);
    assert_eq!(drained.len(), 1);
    assert_eq!(drained[0].severity(), Severity::Error);
    match &drained[0] {
        InboundEvent::SendFailed(e, m) => {
            assert_eq!(e, "connection refused");
            assert_eq!(m.payload, b"CL: sim_frame:1,abs_time_ns:0".to_vec());
        }
        _ => panic!("expected a send failure"),
    }
    let t = 11 * NANOS_PER_SECOND;
    let sends = client.tick(&tick_at(t, vec![2]));
    assert_paced(&sends, &[2], t);
    assert!(client.drain_events(&stream).is_empty());
}

#[test]
fn failures_are_errors_and_the_rest_information() {
    let a = server_addr();
    let lost = OutboundMessage {
        destination: a,
        payload: Vec::new(),
        delivery: Delivery::Reliable,
        urgency: Urgency::Immediate,
    };
    assert_eq!(message(a, b"p").severity(), Severity::Info);
    assert_eq!(InboundEvent::PeerConnected(a).severity(), Severity::Info);
    assert_eq!(InboundEvent::PeerDisconnected(a).severity(), Severity::Info);
    assert_eq!(InboundEvent::ReceiveFailed(String::new()).severity(), Severity::Error);
    assert_eq!(InboundEvent::SendFailed(String::new(), lost).severity(), Severity::Error);
    assert_eq!(InboundEvent::ConnectionFailed(String::new(), None).severity(), Severity::Error);
}

#[test]
fn duplicate_keeps_the_value() {
    let e = message(v4(8, 8, 8, 8, 53), b"abc");
    match e.duplicate() {
        InboundEvent::MessageReceived(a, p) => {
            assert_eq!(a, v4(8, 8, 8, 8, 53));
            assert_eq!(p, b"abc".to_vec());
        }
        _ => panic!("variant changed"),
    }
}

#[test]
fn accessors_report_configuration() {
    let stream = EventStream::new();
    let client = client_with(&stream);
    assert_eq!(client.server_address(), server_addr());
    assert_eq!(
        client.liveness_window(),
        LivenessWindow { start_ns: 5 * NANOS_PER_SECOND, end_ns: 10 * NANOS_PER_SECOND }
    );
}

#[test]
fn discarding_frees_only_what_was_read() {
    let mut stream = EventStream::new();
    let mut server = ServerSystem::new(stream.register_reader());
    let a = v4(10, 0, 0, 7, 7000);
    stream.publish(message(a, b"1"));
    stream.publish(message(a, b"2"));
    assert_eq!(server.drain_events(&stream).replies.len(), 2);
    stream.publish(message(a, b"3"));
    stream.discard_before(server.reader());
    assert_eq!(stream.len(), 3);
    let drain = server.drain_events(&stream);
    assert_eq!(drain.events.len(), 1);
    assert!(matches!(&drain.events[0], InboundEvent::MessageReceived(_, p) if p == b"3"));
    stream.discard_before(server.reader());
    stream.publish(message(a, b"4"));
    let drain = server.drain_events(&stream);
    assert_eq!(drain.events.len(), 1);
    assert_eq!(drain.replies[0].destination, a);
    assert_eq!(stream.len(), 4);
}

#[test]
fn reader_behind_a_discard_skips_discarded_events() {
    let mut stream = EventStream::new();
    let mut ahead = stream.register_reader();
    let mut behind = stream.register_reader();
    stream.publish(InboundEvent::PeerConnected(server_addr()));
    stream.publish(InboundEvent::PeerDisconnected(server_addr()));
    assert_eq!(stream.read(&mut ahead).len(), 2);
    stream.discard_before(&ahead);
    stream.publish(InboundEvent::ReceiveFailed("gone".to_string()));
    let got = stream.read(&mut behind);
    assert_eq!(got.len(), 1);
    assert!(matches!(&got[0], InboundEvent::ReceiveFailed(e) if e == "gone"));
    assert_eq!(stream.read(&mut ahead).len(), 1);
}

#[test]
fn cursor_of_a_longer_stream_reads_nothing() {
    let mut long = EventStream::new();
    long.publish(InboundEvent::PeerConnected(server_addr()));
    let mut far = long.register_reader();
    let short = EventStream::new();
    assert!(short.read(&mut far).is_empty());
    long.publish(InboundEvent::PeerConnected(server_addr()));
    assert_eq!(long.read(&mut far).len(), 1);
}
