use seersdk_rs::frame::RbkResultKind;
use seersdk_rs::port_client::{
    effective_timeout_ms, should_reset, BeginOutcome, ClientState,
};
use seersdk_rs::protocol::{encode_request, RbkDecoder};

#[test]
fn test_begin_requires_connect_first() {
    let mut state = ClientState::new();
    assert!(!state.is_disposed());
    assert!(!state.has_connection());
    match state.begin_request(1007, "") {
        BeginOutcome::NeedConnect => {}
        _ => panic!("a fresh client must connect before sending"),
    }
}

#[test]
fn test_begin_sends_encoded_frame() {
    let mut state = ClientState::new();
    state.mark_connected();
    match state.begin_request(1007, "{\"simple\":true}") {
        BeginOutcome::Send { flow_no, bytes } => {
            assert_eq!(flow_no, 1);
            assert_eq!(bytes, encode_request(1007, "{\"simple\":true}", 1));
        }
        _ => panic!("a connected client must send"),
    }
    // The counter advances on every request.
    match state.begin_request(1007, "") {
        BeginOutcome::Send { flow_no, .. } => assert_eq!(flow_no, 2),
        _ => panic!("a connected client must send"),
    }
}

#[test]
fn test_begin_rejects_bad_api_no() {
    let mut state = ClientState::new();
    state.mark_connected();
    match state.begin_request(-1, "") {
        BeginOutcome::BadApi => {}
        _ => panic!("negative API numbers do not fit the wire format"),
    }
    match state.begin_request(65536, "") {
        BeginOutcome::BadApi => {}
        _ => panic!("API numbers above 16 bits do not fit the wire format"),
    }
    match state.begin_request(65535, "") {
        BeginOutcome::Send { .. } => {}
        _ => panic!("the largest 16-bit API number is representable"),
    }
}

#[test]
fn test_flow_no_wraps_at_modulus() {
    let mut state = ClientState::new();
    for expected in 1..512u16 {
        assert_eq!(state.next_flow_no(), expected);
    }
    // After 511 the counter wraps to 0, reusing the space cyclically.
    assert_eq!(state.next_flow_no(), 0);
    assert_eq!(state.next_flow_no(), 1);
}

#[test]
fn test_correlation_out_of_order() {
    // Two requests in flight under different flow numbers; the replies
    // arrive in the opposite order on the wire. Each waiter still gets
    // exactly its own body.
    let mut state = ClientState::new();
    state.mark_connected();
    let f1 = match state.begin_request(1007, "battery?") {
        BeginOutcome::Send { flow_no, .. } => flow_no,
        _ => panic!("must send"),
    };
    let f2 = match state.begin_request(1004, "pose?") {
        BeginOutcome::Send { flow_no, .. } => flow_no,
        _ => panic!("must send"),
    };
    assert_ne!(f1, f2);

    // The reader deposits the second reply first.
    state.deposit_response(f2, "pose-reply".to_string());
    state.deposit_response(f1, "battery-reply".to_string());

    // Waiter one is woken: nothing for flow f1? No - its reply is there.
    let r1 = state.on_wake(f1, "robot", 1007, "battery?").expect("resolved");
    assert_eq!(r1.kind, RbkResultKind::Success);
    assert_eq!(r1.res_str.as_deref(), Some("battery-reply"));
    assert_eq!(r1.api_no, 1007);
    assert_eq!(r1.host, "robot");

    let r2 = state.on_wake(f2, "robot", 1004, "pose?").expect("resolved");
    assert_eq!(r2.kind, RbkResultKind::Success);
    assert_eq!(r2.res_str.as_deref(), Some("pose-reply"));
}

#[test]
fn test_wake_without_reply_keeps_waiting() {
    let mut state = ClientState::new();
    state.mark_connected();
    state.deposit_response(5, "someone else's".to_string());
    // Wakeups are broadcast: a waiter whose reply has not arrived re-checks
    // and keeps waiting rather than taking another request's reply.
    assert!(state.on_wake(6, "robot", 1001, "").is_none());
    let r = state.on_wake(5, "robot", 1001, "").expect("resolved");
    assert_eq!(r.res_str.as_deref(), Some("someone else's"));
}

#[test]
fn test_dispose_resolves_in_flight_request() {
    let mut state = ClientState::new();
    state.mark_connected();
    let flow = match state.begin_request(1007, "") {
        BeginOutcome::Send { flow_no, .. } => flow_no,
        _ => panic!("must send"),
    };
    // dispose/reset while the request is in flight...
    state.reset();
    // ...makes its next wakeup resolve with a disposed error, not hang.
    let r = state.on_wake(flow, "robot", 1007, "").expect("resolved");
    assert_eq!(r.kind, RbkResultKind::Disposed);
}

#[test]
fn test_timeout_then_recovery() {
    let mut state = ClientState::new();
    state.mark_connected();
    let flow = match state.begin_request(1007, "") {
        BeginOutcome::Send { flow_no, .. } => flow_no,
        _ => panic!("must send"),
    };
    // No reply arrives; the timer fires.
    let timed_out = ClientState::on_timeout("robot", 1007, "");
    assert_eq!(timed_out.kind, RbkResultKind::Timeout);
    assert_eq!(timed_out.err_msg.as_deref(), Some("Timeout"));
    assert!(should_reset(&timed_out.kind));
    state.reset();

    // A late reply for the stale flow number finds no waiter; the next
    // request reconnects from scratch and succeeds.
    match state.begin_request(1007, "") {
        BeginOutcome::NeedConnect => {}
        _ => panic!("after a reset the next request must reconnect"),
    }
    state.mark_connected();
    let flow2 = match state.begin_request(1007, "") {
        BeginOutcome::Send { flow_no, .. } => flow_no,
        _ => panic!("must send after reconnect"),
    };
    state.deposit_response(flow2, "fresh".to_string());
    let r = state.on_wake(flow2, "robot", 1007, "").expect("resolved");
    assert_eq!(r.kind, RbkResultKind::Success);
    assert_eq!(r.res_str.as_deref(), Some("fresh"));
    let _ = flow;
}

#[test]
fn test_bad_api_no_leaves_connection_alone() {
    // A bad API number is a caller error: the request is rejected, no
    // reset follows, and a request already in flight still gets its reply.
    let mut state = ClientState::new();
    state.mark_connected();
    let flow = match state.begin_request(1007, "battery?") {
        BeginOutcome::Send { flow_no, .. } => flow_no,
        _ => panic!("must send"),
    };
    match state.begin_request(70000, "") {
        BeginOutcome::BadApi => {}
        _ => panic!("an out-of-range API number must be rejected"),
    }
    assert!(!should_reset(&RbkResultKind::BadApiNo));
    assert!(state.has_connection());
    assert!(!state.is_disposed());
    state.deposit_response(flow, "still here".to_string());
    let r = state.on_wake(flow, "robot", 1007, "battery?").expect("resolved");
    assert_eq!(r.kind, RbkResultKind::Success);
    assert_eq!(r.res_str.as_deref(), Some("still here"));
}

#[test]
fn test_reset_is_idempotent() {
    let mut state = ClientState::new();
    state.reset();
    state.reset();
    assert!(state.is_disposed());
    assert!(!state.has_connection());
}

#[test]
fn test_process_incoming_files_frames() {
    let mut state = ClientState::new();
    state.mark_connected();
    let mut decoder = RbkDecoder::new();
    let mut buf: Vec<u8> = Vec::new();

    let mut chunk: Vec<u8> = Vec::new();
    chunk.extend_from_slice(&encode_request(1007, "battery", 21));
    chunk.extend_from_slice(&encode_request(1004, "pose", 22));
    let n = state.process_incoming(&mut decoder, &mut buf, &chunk);
    assert_eq!(n, 2);
    assert!(buf.is_empty());

    let r = state.on_wake(21, "robot", 1007, "").expect("resolved");
    assert_eq!(r.res_str.as_deref(), Some("battery"));
    let r = state.on_wake(22, "robot", 1004, "").expect("resolved");
    assert_eq!(r.res_str.as_deref(), Some("pose"));
}

#[test]
fn test_process_incoming_parks_partial_frame() {
    let mut state = ClientState::new();
    state.mark_connected();
    let mut decoder = RbkDecoder::new();
    let mut buf: Vec<u8> = Vec::new();

    let encoded = encode_request(1020, "task status", 31);
    let n = state.process_incoming(&mut decoder, &mut buf, &encoded[..10]);
    assert_eq!(n, 0);
    assert!(state.on_wake(31, "robot", 1020, "").is_none());

    let n = state.process_incoming(&mut decoder, &mut buf, &encoded[10..]);
    assert_eq!(n, 1);
    assert!(buf.is_empty());
    let r = state.on_wake(31, "robot", 1020, "").expect("resolved");
    assert_eq!(r.res_str.as_deref(), Some("task status"));
}

#[test]
fn test_effective_timeout_defaults() {
    assert_eq!(effective_timeout_ms(0), 10000);
    assert_eq!(effective_timeout_ms(2500), 2500);
}

#[test]
fn test_should_reset_on_transport_failures_only() {
    assert!(!should_reset(&RbkResultKind::Success));
    assert!(should_reset(&RbkResultKind::Timeout));
    assert!(should_reset(&RbkResultKind::Disposed));
    assert!(should_reset(&RbkResultKind::WriteError));
    assert!(should_reset(&RbkResultKind::ConnectFail));
    assert!(should_reset(&RbkResultKind::NoSuchRobot));
    assert!(should_reset(&RbkResultKind::Interrupted));
    // A bad API number is a caller error: the connection stays up.
    assert!(!should_reset(&RbkResultKind::BadApiNo));
}
