use seersdk_rs::protocol::{encode_request, RbkDecoder};

#[test]
fn test_encode_decode() {
    let api_no = 1007;
    let body = r#"{"simple": true}"#;
    let flow_no = 42;

    let encoded = encode_request(api_no, body, flow_no);
    let mut buf = encoded;

    let mut decoder = RbkDecoder::new();
    let frame = decoder.decode(&mut buf).expect("Should decode frame");

    assert_eq!(frame.flow_no, flow_no);
    assert_eq!(frame.api_no, api_no);
    assert_eq!(frame.body_str, body);
}

#[test]
fn test_encode_wire_layout() {
    // encode(api_no=1007, body="{\"simple\":true}", flow_no=42) must start
    // with the start mark, the version byte, and flow 42 big-endian, then
    // the 4-byte big-endian body length, api 1007 big-endian, six zero
    // bytes, and the body bytes.
    let body = "{\"simple\":true}";
    let encoded = encode_request(1007, body, 42);

    assert_eq!(encoded[0], 0x5A);
    assert_eq!(encoded[1], 0x01);
    assert_eq!(&encoded[2..4], &[0x00, 0x2A]);
    assert_eq!(&encoded[4..8], &(body.len() as u32).to_be_bytes());
    assert_eq!(&encoded[4..8], &[0x00, 0x00, 0x00, 0x0F]);
    assert_eq!(&encoded[8..10], &[0x03, 0xEF]);
    assert_eq!(&encoded[10..16], &[0, 0, 0, 0, 0, 0]);
    assert_eq!(&encoded[16..], body.as_bytes());
    assert_eq!(encoded.len(), 16 + body.len());
}

#[test]
fn test_empty_body_round_trip() {
    let mut buf = encode_request(1000, "", 7);
    assert_eq!(buf.len(), 16);
    let mut decoder = RbkDecoder::new();
    let frame = decoder.decode(&mut buf).expect("Should decode frame");
    assert_eq!(frame.flow_no, 7);
    assert_eq!(frame.api_no, 1000);
    assert_eq!(frame.body_str, "");
    assert!(buf.is_empty());
}

#[test]
fn test_multibyte_utf8_round_trip() {
    let body = "héllo — 日本語 🤖";
    let mut buf = encode_request(1004, body, 300);
    let mut decoder = RbkDecoder::new();
    let frame = decoder.decode(&mut buf).expect("Should decode frame");
    assert_eq!(frame.flow_no, 300);
    assert_eq!(frame.api_no, 1004);
    assert_eq!(frame.body_str, body);
}

#[test]
fn test_invalid_utf8_body_is_replaced() {
    // A hand-built frame whose body is not valid UTF-8: the decoder must
    // still produce the frame, with the bad byte replaced, never dropped.
    let mut buf = vec![0x5A, 0x01, 0x00, 0x01, 0x00, 0x00, 0x00, 0x03, 0x03, 0xEF];
    buf.extend_from_slice(&[0, 0, 0, 0, 0, 0]);
    buf.extend_from_slice(&[b'a', 0xFF, b'b']);
    let mut decoder = RbkDecoder::new();
    let frame = decoder.decode(&mut buf).expect("Should decode frame");
    assert_eq!(frame.flow_no, 1);
    assert_eq!(frame.api_no, 1007);
    assert_eq!(frame.body_str, "a\u{FFFD}b");
}

#[test]
fn test_resync_on_garbage() {
    // Garbage (without a stray start mark) before a valid frame is dropped
    // and exactly that frame comes out.
    let mut buf: Vec<u8> = vec![0x00, 0x17, 0x42, 0xFF, 0x10];
    buf.extend_from_slice(&encode_request(2001, "go", 9));
    let mut decoder = RbkDecoder::new();
    let frame = decoder.decode(&mut buf).expect("Should decode frame");
    assert_eq!(frame.flow_no, 9);
    assert_eq!(frame.api_no, 2001);
    assert_eq!(frame.body_str, "go");
    assert!(buf.is_empty());
    assert!(decoder.decode(&mut buf).is_none());
}

#[test]
fn test_stray_mark_in_garbage_derails_decoding() {
    // A known limit of the resync scheme: a stray start-mark byte inside
    // garbage makes the decoder latch onto it and read what follows as a
    // header, so the genuine frame behind it is not recovered. The frame
    // format has no checksum; resync only covers mark-free garbage.
    let mut buf: Vec<u8> = vec![0x5A, 0xFF];
    buf.extend_from_slice(&encode_request(1007, "x", 42));
    let mut decoder = RbkDecoder::new();
    assert!(decoder.decode(&mut buf).is_none());
}

#[test]
fn test_garbage_only_consumes_nothing_useful() {
    let mut buf: Vec<u8> = vec![0x01, 0x02, 0x03];
    let mut decoder = RbkDecoder::new();
    assert!(decoder.decode(&mut buf).is_none());
    assert!(buf.is_empty());
}

#[test]
fn test_partial_frame_then_completion() {
    // A buffer holding a valid header but too few body bytes yields no
    // frame; appending the remaining bytes yields the complete frame with
    // no duplication or loss.
    let encoded = encode_request(3051, "{\"id\":\"LM2\"}", 77);
    let split = 20;
    let mut buf: Vec<u8> = encoded[..split].to_vec();
    let mut decoder = RbkDecoder::new();
    assert!(decoder.decode(&mut buf).is_none());
    buf.extend_from_slice(&encoded[split..]);
    let frame = decoder.decode(&mut buf).expect("Should decode frame");
    assert_eq!(frame.flow_no, 77);
    assert_eq!(frame.api_no, 3051);
    assert_eq!(frame.body_str, "{\"id\":\"LM2\"}");
    assert!(buf.is_empty());
    assert!(decoder.decode(&mut buf).is_none());
}

#[test]
fn test_incremental_one_byte_at_a_time() {
    // Feeding three frames' bytes one byte at a time yields the same three
    // frames, in order, as feeding them at once.
    let mut stream: Vec<u8> = Vec::new();
    stream.extend_from_slice(&encode_request(1007, "", 1));
    stream.extend_from_slice(&encode_request(2002, "{\"x\":1}", 2));
    stream.extend_from_slice(&encode_request(3001, "body three", 3));

    let mut all_at_once = stream.clone();
    let mut decoder = RbkDecoder::new();
    let mut expected = Vec::new();
    while let Some(frame) = decoder.decode(&mut all_at_once) {
        expected.push((frame.flow_no, frame.api_no, frame.body_str));
    }
    assert_eq!(expected.len(), 3);

    let mut buf: Vec<u8> = Vec::new();
    let mut decoder = RbkDecoder::new();
    let mut got = Vec::new();
    for byte in stream {
        buf.push(byte);
        while let Some(frame) = decoder.decode(&mut buf) {
            got.push((frame.flow_no, frame.api_no, frame.body_str));
        }
    }
    assert_eq!(got, expected);
    assert_eq!(got[0], (1, 1007, String::new()));
    assert_eq!(got[1], (2, 2002, "{\"x\":1}".to_string()));
    assert_eq!(got[2], (3, 3001, "body three".to_string()));
}

#[test]
fn test_two_frames_in_one_buffer() {
    let mut buf: Vec<u8> = Vec::new();
    buf.extend_from_slice(&encode_request(1001, "first", 10));
    buf.extend_from_slice(&encode_request(1002, "second", 11));
    let mut decoder = RbkDecoder::new();
    let f1 = decoder.decode(&mut buf).expect("first frame");
    assert_eq!((f1.flow_no, f1.api_no, f1.body_str.as_str()), (10, 1001, "first"));
    let f2 = decoder.decode(&mut buf).expect("second frame");
    assert_eq!((f2.flow_no, f2.api_no, f2.body_str.as_str()), (11, 1002, "second"));
    assert!(decoder.decode(&mut buf).is_none());
}
