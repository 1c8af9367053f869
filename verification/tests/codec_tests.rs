use playback_tunnel::b64codec::{base64_frame_to_message, encode_base64_stream, Base64Frame};
use playback_tunnel::codec::{
    encode_chunks, encode_chunks_ranged, frame_to_bytes, parse_frame, split_window_by_ranges,
    u32_from_be_bytes, u32_to_be_bytes, u64_from_be_bytes, u64_to_be_bytes, BinaryFrame,
    StreamEncoder,
};
use playback_tunnel::ranges::{normalize_ranges, parse_ranges, ByteRange};
use base64::Engine;
use playback_tunnel::tunnel::{
    prepare_outbound_message, tunnel_transition, TunnelConnectionState, TunnelEvent,
    TunnelResponseMessage, TunnelResponseWs, TunnelSender, TunnelStep, WirePayload,
};

fn bytes(n: usize) -> Vec<u8> {
    (0..n).map(|i| (i % 251) as u8).collect()
}

fn reassemble(frames: &[BinaryFrame]) -> Vec<u8> {
    let mut sorted: Vec<&BinaryFrame> = frames.iter().collect();
    sorted.sort_by_key(|f| f.packet_id);
    let mut out = Vec::new();
    for f in sorted {
        out.extend_from_slice(&f.payload);
    }
    out
}

#[test]
fn be_bytes_round_trip() {
    let v = u64_to_be_bytes(0x0102030405060708);
    assert_eq!(v, vec![1, 2, 3, 4, 5, 6, 7, 8]);
    assert_eq!(u64_from_be_bytes(&v), 0x0102030405060708);
    let w = u32_to_be_bytes(0xDEADBEEF);
    assert_eq!(w, vec![0xDE, 0xAD, 0xBE, 0xEF]);
    assert_eq!(u32_from_be_bytes(&w), 0xDEADBEEF);
}

#[test]
fn frame_wire_round_trip_with_headers() {
    let f = BinaryFrame {
        request_id: 42,
        packet_id: 1,
        last: false,
        headers: vec![b'{', b'}'],
        payload: vec![9, 8, 7],
    };
    let wire = frame_to_bytes(&f);
    assert_eq!(wire.len(), 8 + 4 + 1 + 4 + 2 + 3);
    let p = parse_frame(&wire).expect("well-formed frame must parse");
    assert_eq!(p.request_id, 42);
    assert_eq!(p.packet_id, 1);
    assert!(!p.last);
    assert_eq!(p.headers, vec![b'{', b'}']);
    assert_eq!(p.payload, vec![9, 8, 7]);
}

#[test]
fn frame_wire_round_trip_without_headers() {
    let f = BinaryFrame {
        request_id: 7,
        packet_id: 3,
        last: true,
        headers: Vec::new(),
        payload: vec![1, 2],
    };
    let wire = frame_to_bytes(&f);
    assert_eq!(wire.len(), 13 + 2);
    assert_eq!(wire[12], 1);
    let p = parse_frame(&wire).expect("well-formed frame must parse");
    assert_eq!(p.packet_id, 3);
    assert!(p.last);
    assert!(p.headers.is_empty());
    assert_eq!(p.payload, vec![1, 2]);
}

#[test]
fn parse_frame_rejects_garbage() {
    assert!(parse_frame(&vec![1, 2, 3]).is_none());
    let mut wire = frame_to_bytes(&BinaryFrame {
        request_id: 1,
        packet_id: 2,
        last: false,
        headers: Vec::new(),
        payload: vec![],
    });
    wire[12] = 7;
    assert!(parse_frame(&wire).is_none());
}

#[test]
fn framing_round_trip_exact_frame_sizes() {
    let headers = vec![b'h', b'd', b'r', b's'];
    let chunks = vec![bytes(10)];
    let frames = encode_chunks(5, headers, 30, &chunks);
    assert_eq!(frames.len(), 2);
    assert_eq!(frames[0].packet_id, 1);
    assert_eq!(frames[0].payload.len(), 9);
    assert!(!frames[0].last);
    assert_eq!(frames[1].packet_id, 2);
    assert_eq!(frames[1].payload.len(), 1);
    assert!(frames[1].last);
    assert_eq!(reassemble(&frames), bytes(10));
}

#[test]
fn framing_round_trip_many_chunks() {
    let chunks = vec![bytes(50), bytes(100), Vec::new(), bytes(33)];
    let mut all = Vec::new();
    for c in &chunks {
        all.extend_from_slice(c);
    }
    let frames = encode_chunks(99, Vec::new(), 64, &chunks);
    assert_eq!(reassemble(&frames), all);
    for (i, f) in frames.iter().enumerate() {
        assert_eq!(f.request_id, 99);
        assert_eq!(f.packet_id as usize, i + 1);
        assert_eq!(f.last, i == frames.len() - 1);
        let wire = frame_to_bytes(f);
        assert!(wire.len() <= 64);
        let p = parse_frame(&wire).unwrap();
        assert_eq!(p.payload, f.payload);
    }
}

#[test]
fn empty_stream_yields_one_last_frame() {
    let frames = encode_chunks(1, Vec::new(), 64, &Vec::new());
    assert_eq!(frames.len(), 1);
    assert!(frames[0].last);
    assert!(frames[0].payload.is_empty());
}

#[test]
fn exact_capacity_fill_keeps_last_flag_on_data_frame() {
    // capacity of packet 1 with empty headers is 64 - 17 = 47 bytes
    let frames = encode_chunks(1, Vec::new(), 64, &vec![bytes(47)]);
    assert_eq!(frames.len(), 1);
    assert!(frames[0].last);
    assert_eq!(frames[0].payload.len(), 47);
}

#[test]
fn stream_encoder_carries_left_over_between_chunks() {
    let mut enc = StreamEncoder::new(3, Vec::new(), 30, None);
    // capacity: packet 1 holds 13, later packets hold 17
    let out1 = enc.push_chunk(&bytes(20));
    assert_eq!(out1.len(), 1);
    assert_eq!(out1[0].payload.len(), 13);
    let out2 = enc.push_chunk(&bytes(5));
    assert!(out2.is_empty());
    let tail = enc.finish();
    assert_eq!(tail.len(), 1);
    assert_eq!(tail[0].payload.len(), 12);
    assert!(tail[0].last);
}

#[test]
fn range_slicing_concatenates_exactly_the_requested_stretches() {
    let data = bytes(100);
    let ranges = vec![
        ByteRange { start: Some(10), end: Some(20) },
        ByteRange { start: Some(50), end: Some(60) },
    ];
    let frames = encode_chunks_ranged(5, Vec::new(), 40, ranges, &vec![data.clone()]);
    let got = reassemble(&frames);
    let mut want = data[10..20].to_vec();
    want.extend_from_slice(&data[50..60]);
    assert_eq!(got, want);
}

#[test]
fn range_slicing_with_open_tail_range() {
    let data = bytes(64);
    let ranges = vec![ByteRange { start: Some(60), end: None }];
    let frames = encode_chunks_ranged(5, Vec::new(), 40, ranges, &vec![data.clone()]);
    assert_eq!(reassemble(&frames), data[60..].to_vec());
    assert!(frames.last().unwrap().last);
}

#[test]
fn range_slicing_splits_one_window_into_subframes() {
    let data = bytes(10);
    let ranges = vec![
        ByteRange { start: Some(1), end: Some(3) },
        ByteRange { start: Some(5), end: Some(7) },
    ];
    let slices = split_window_by_ranges(&data, 0, &ranges);
    assert_eq!(slices, vec![(1, 3), (5, 7)]);
}

#[test]
fn parse_ranges_reads_http_style_lists() {
    let v = parse_ranges("0-499,600-").unwrap();
    assert_eq!(v.len(), 2);
    assert_eq!(v[0].start, Some(0));
    assert_eq!(v[0].end, Some(500));
    assert_eq!(v[1].start, Some(600));
    assert_eq!(v[1].end, None);
    let v = parse_ranges("-499").unwrap();
    assert_eq!(v[0].start, None);
    assert_eq!(v[0].end, Some(500));
    assert!(parse_ranges("abc").is_err());
    assert!(parse_ranges("5-2").is_err());
    assert!(parse_ranges("").is_err());
}

#[test]
fn aborted_request_frames_never_reach_the_wire() {
    let (mut sender, _handle) = TunnelSender::new(
        "host".to_string(),
        "url".to_string(),
        "client".to_string(),
        "token".to_string(),
    );
    sender.set_connected(true);

    let frames = encode_chunks(7, Vec::new(), 64, &vec![bytes(210)]);
    assert_eq!(frames.len(), 5);

    let mut wire: Vec<TunnelResponseMessage> = Vec::new();
    let mut queued = 0;
    for f in frames {
        if queued == 2 {
            // the request is cancelled while three frames are still in flight
            sender.abort_request(7);
        }
        if queued < 2 && sender.is_request_aborted(f.request_id) {
            break;
        }
        let rid = f.request_id;
        let pid = f.packet_id;
        sender.send_bytes(rid, pid, frame_to_bytes(&f)).unwrap();
        queued += 1;
        wire.extend(sender.drain_outbound());
    }

    assert_eq!(queued, 5);
    assert_eq!(wire.len(), 2);
    for m in &wire {
        match m {
            TunnelResponseMessage::Packet(p) => {
                assert_eq!(p.request_id, 7);
                let b = match &p.message {
                    WirePayload::Binary(b) => b,
                    WirePayload::Text(_) => panic!("binary frame expected"),
                };
                let parsed = parse_frame(b).unwrap();
                assert!(!parsed.last);
            },
            TunnelResponseMessage::Ws(_) => panic!("packet expected"),
        }
    }
}

#[test]
fn drain_keeps_ws_messages_while_dropping_aborted_packets() {
    let (mut sender, _handle) = TunnelSender::new(
        "h".to_string(),
        "u".to_string(),
        "c".to_string(),
        "t".to_string(),
    );
    sender.set_connected(true);
    sender.send_bytes(1, 1, vec![1]).unwrap();
    sender.send_ws_message(TunnelResponseWs {
        message: WirePayload::Text("{}".to_string()),
        exclude_connection_ids: None,
        to_connection_ids: None,
    });
    sender.abort_request(1);
    let out = sender.drain_outbound();
    assert_eq!(out.len(), 1);
    assert!(matches!(out[0], TunnelResponseMessage::Ws(_)));
}

#[test]
fn send_bytes_without_connection_is_refused() {
    let (mut sender, _handle) = TunnelSender::new(
        "h".to_string(),
        "u".to_string(),
        "c".to_string(),
        "t".to_string(),
    );
    assert!(sender.send_bytes(1, 1, vec![1]).is_err());
    assert!(sender.send_message(1, 1, "x".to_string()).is_err());
}

#[test]
fn completed_request_leaves_the_abort_registry() {
    let (mut sender, _handle) = TunnelSender::new(
        "h".to_string(),
        "u".to_string(),
        "c".to_string(),
        "t".to_string(),
    );
    sender.abort_request(4);
    assert!(sender.is_request_aborted(4));
    sender.complete_request(4);
    assert!(!sender.is_request_aborted(4));
}

#[test]
fn tunnel_lifecycle_fast_retry_then_backoff() {
    assert_eq!(tunnel_transition(TunnelConnectionState::Authenticating, TunnelEvent::TokenFetchFailed), (
        TunnelConnectionState::Authenticating,
        TunnelStep::WaitThenFetchToken { wait_ms: 5000 },
    ));
    assert_eq!(tunnel_transition(TunnelConnectionState::Authenticating, TunnelEvent::TokenFetched), (
        TunnelConnectionState::Connecting { just_retried: false },
        TunnelStep::Connect,
    ));
    assert_eq!(tunnel_transition(TunnelConnectionState::Connecting { just_retried: false }, TunnelEvent::ConnectSucceeded), (
        TunnelConnectionState::Connected,
        TunnelStep::RunConnection,
    ));
    assert_eq!(tunnel_transition(TunnelConnectionState::Connected, TunnelEvent::ConnectionClosed), (
        TunnelConnectionState::Connecting { just_retried: true },
        TunnelStep::Connect,
    ));
    assert_eq!(tunnel_transition(TunnelConnectionState::Connecting { just_retried: true }, TunnelEvent::ConnectFailed), (
        TunnelConnectionState::Connecting { just_retried: true },
        TunnelStep::WaitThenConnect { wait_ms: 5000 },
    ));
    assert_eq!(tunnel_transition(TunnelConnectionState::Connected, TunnelEvent::CancelRequested), (TunnelConnectionState::Closed, TunnelStep::Stop));
    assert_eq!(tunnel_transition(TunnelConnectionState::Closed, TunnelEvent::TokenFetched), (TunnelConnectionState::Closed, TunnelStep::Stop));
}

#[test]
fn base64_stream_carries_bytes_and_ends_with_empty_frame() {
    let data = bytes(100);
    let frames = encode_base64_stream(3, vec![b'h'], 48, false, &vec![data.clone()]).unwrap();
    assert!(frames.len() >= 2);
    assert!(frames[0].headers.is_some());
    assert!(frames.last().unwrap().payload.is_empty());
    let mut got = Vec::new();
    for f in &frames {
        got.extend_from_slice(&f.payload);
    }
    assert_eq!(got, data);
    for (i, f) in frames.iter().enumerate() {
        assert_eq!(f.packet_id as usize, i + 1);
    }
}

#[test]
fn base64_mode_refuses_byte_ranges() {
    let r = encode_base64_stream(3, Vec::new(), 48, true, &vec![bytes(5)]);
    assert!(r.is_err());
}

#[test]
fn base64_message_envelope_format() {
    let f = Base64Frame {
        request_id: 12,
        packet_id: 1,
        headers: Some(vec![b'{', b'}']),
        payload: vec![1, 2, 3],
    };
    let msg = base64_frame_to_message(&f);
    let hb = base64::engine::general_purpose::STANDARD.encode([b'{', b'}']);
    let pb = base64::engine::general_purpose::STANDARD.encode([1u8, 2, 3]);
    assert_eq!(msg, format!("12|1|{{{}}}{}", hb, pb));

    let end = Base64Frame { request_id: 12, packet_id: 4, headers: None, payload: Vec::new() };
    assert_eq!(base64_frame_to_message(&end), "12|4|");
}

#[test]
fn ws_envelope_wraps_control_messages_under_request_zero() {
    let msg = TunnelResponseMessage::Ws(TunnelResponseWs {
        message: WirePayload::Text("{\"kind\":\"ping\"}".to_string()),
        exclude_connection_ids: Some(vec![3]),
        to_connection_ids: None,
    });
    let out = prepare_outbound_message(msg).unwrap();
    let text = match out {
        WirePayload::Text(t) => t,
        WirePayload::Binary(_) => panic!("text expected"),
    };
    let v: serde_json::Value = serde_json::from_str(&text).unwrap();
    assert_eq!(v["request_id"], 0);
    assert_eq!(v["body"]["kind"], "ping");
    assert_eq!(v["exclude_connection_ids"][0], 3);

    let bad = TunnelResponseMessage::Ws(TunnelResponseWs {
        message: WirePayload::Text("not json".to_string()),
        exclude_connection_ids: None,
        to_connection_ids: None,
    });
    assert!(prepare_outbound_message(bad).is_none());
}

#[test]
fn normalize_sorts_merges_and_keeps_adjacent_windows() {
    let unsorted = vec![
        ByteRange { start: Some(50), end: Some(60) },
        ByteRange { start: Some(10), end: Some(20) },
    ];
    let n = normalize_ranges(&unsorted);
    assert_eq!(n.len(), 2);
    assert_eq!(n[0].start, Some(10));
    assert_eq!(n[1].start, Some(50));

    let overlapping = vec![
        ByteRange { start: Some(0), end: Some(10) },
        ByteRange { start: Some(5), end: Some(15) },
    ];
    let n = normalize_ranges(&overlapping);
    assert_eq!(n.len(), 1);
    assert_eq!(n[0].start, Some(0));
    assert_eq!(n[0].end, Some(15));

    let adjacent = vec![
        ByteRange { start: Some(0), end: Some(5) },
        ByteRange { start: Some(5), end: Some(9) },
    ];
    let n = normalize_ranges(&adjacent);
    assert_eq!(n.len(), 2);

    let open_tail = vec![
        ByteRange { start: Some(10), end: None },
        ByteRange { start: Some(20), end: Some(30) },
    ];
    let n = normalize_ranges(&open_tail);
    assert_eq!(n.len(), 1);
    assert_eq!(n[0].end, None);
}

#[test]
fn normalized_unsorted_ranges_slice_the_stream_correctly() {
    let data = bytes(100);
    let raw = vec![
        ByteRange { start: Some(50), end: Some(60) },
        ByteRange { start: Some(10), end: Some(20) },
    ];
    let frames = encode_chunks_ranged(5, Vec::new(), 40, normalize_ranges(&raw), &vec![
        data.clone(),
    ]);
    let mut want = data[10..20].to_vec();
    want.extend_from_slice(&data[50..60]);
    assert_eq!(reassemble(&frames), want);
}

#[test]
fn ws_envelope_exact_field_order() {
    let msg = TunnelResponseMessage::Ws(TunnelResponseWs {
        message: WirePayload::Text("{\"kind\":\"ping\"}".to_string()),
        exclude_connection_ids: Some(vec![3, 7]),
        to_connection_ids: None,
    });
    let out = prepare_outbound_message(msg).unwrap();
    let text = match out {
        WirePayload::Text(t) => t,
        WirePayload::Binary(_) => panic!("text expected"),
    };
    assert_eq!(
        text,
        "{\"request_id\":0,\"body\":{\"kind\":\"ping\"},\"exclude_connection_ids\":[3,7]}"
    );
}

#[test]
fn out_of_bounds_errors_carry_the_offending_position() {
    // exercised through the playback handler in its own test file; here the
    // wire-level counterpart: every emitted frame respects the size bound.
    let frames = encode_chunks(9, vec![1, 2, 3], 32, &vec![bytes(100)]);
    for f in &frames {
        assert!(frame_to_bytes(f).len() <= 32);
    }
}
