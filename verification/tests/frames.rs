//! Frame decoding: the three frame types, their payloads, and the canonical
//! re-encoding.

use nsq_client::error::{Error, NsqError};
use nsq_client::frame::Frame;
use nsq_client::msg::decode_msg;
use nsq_client::response::Response;

fn frame_bytes(ftype: u32, payload: &[u8]) -> Vec<u8> {
    let mut b = ((payload.len() + 4) as u32).to_be_bytes().to_vec();
    b.extend_from_slice(&ftype.to_be_bytes());
    b.extend_from_slice(payload);
    b
}

fn msg_payload(timestamp: i64, attempts: u16, id: &str, body: &[u8]) -> Vec<u8> {
    let mut p = timestamp.to_be_bytes().to_vec();
    p.extend_from_slice(&attempts.to_be_bytes());
    p.extend_from_slice(id.as_bytes());
    p.extend_from_slice(body);
    p
}

#[test]
fn response_ok_decodes_as_ok_not_json() {
    let f = Frame::parse(&frame_bytes(0, b"OK")).unwrap();
    assert!(matches!(f, Frame::Response(Response::Okay)));
}

#[test]
fn response_close_wait_decodes_as_ok() {
    let f = Frame::parse(&frame_bytes(0, b"CLOSE_WAIT")).unwrap();
    assert!(matches!(f, Frame::Response(Response::Okay)));
}

#[test]
fn response_heartbeat() {
    let f = Frame::parse(&frame_bytes(0, b"_heartbeat_")).unwrap();
    assert!(matches!(f, Frame::Response(Response::HeartBeat)));
}

#[test]
fn response_json_payload() {
    let f = Frame::parse(&frame_bytes(0, b"{\"max_rdy_count\":2500}")).unwrap();
    match f {
        Frame::Response(Response::Json(s)) => assert_eq!(s, "{\"max_rdy_count\":2500}"),
        _ => panic!("expected a JSON response"),
    }
}

#[test]
fn error_frame_known_kind() {
    let f = Frame::parse(&frame_bytes(1, b"E_BAD_TOPIC")).unwrap();
    assert!(matches!(f, Frame::Error(Error::Topic)));
}

#[test]
fn error_frame_unknown_kind_fails() {
    let r = Frame::parse(&frame_bytes(1, b"E_SOMETHING_ELSE"));
    assert!(matches!(r, Err(NsqError::Decode(_))));
}

#[test]
fn message_frame_decodes() {
    let payload = msg_payload(1_700_000_000_000_000_000, 3, "0123456789abcdef", b"hello");
    let f = Frame::parse(&frame_bytes(2, &payload)).unwrap();
    match f {
        Frame::Msg(m) => {
            assert_eq!(m.timestamp, 1_700_000_000_000_000_000);
            assert_eq!(m.attempts, 3);
            assert_eq!(m.id, "0123456789abcdef");
            assert_eq!(m.body, b"hello".to_vec());
        },
        _ => panic!("expected a message frame"),
    }
}

#[test]
fn message_frame_negative_timestamp() {
    let payload = msg_payload(-7, 1, "0123456789abcdef", b"");
    let f = Frame::parse(&frame_bytes(2, &payload)).unwrap();
    match f {
        Frame::Msg(m) => assert_eq!(m.timestamp, -7),
        _ => panic!("expected a message frame"),
    }
}

#[test]
fn message_frame_exactly_header_has_empty_body() {
    let payload = msg_payload(42, 1, "0123456789abcdef", b"");
    assert_eq!(payload.len(), 26);
    let f = Frame::parse(&frame_bytes(2, &payload)).unwrap();
    match f {
        Frame::Msg(m) => {
            assert_eq!(m.body, Vec::<u8>::new());
            assert_eq!(m.attempts, 1);
        },
        _ => panic!("expected a message frame"),
    }
}

#[test]
fn message_frame_short_header_fails() {
    let payload = vec![0u8; 25];
    let r = Frame::parse(&frame_bytes(2, &payload));
    assert!(matches!(r, Err(NsqError::Decode(_))));
}

#[test]
fn message_id_must_be_text() {
    // 0xFF can never start a UTF-8 sequence.
    let mut payload = 42i64.to_be_bytes().to_vec();
    payload.extend_from_slice(&1u16.to_be_bytes());
    payload.extend_from_slice(&[0xFF; 16]);
    let r = Frame::parse(&frame_bytes(2, &payload));
    assert!(matches!(r, Err(NsqError::Decode(_))));
}

#[test]
fn response_payload_must_be_text() {
    let r = Frame::parse(&frame_bytes(0, &[0xFF, 0xFE, 0x00]));
    assert!(matches!(r, Err(NsqError::Decode(_))));
}

#[test]
fn unknown_frame_type_fails() {
    let r = Frame::parse(&frame_bytes(3, b"OK"));
    assert!(matches!(r, Err(NsqError::Decode(_))));
}

#[test]
fn short_frame_fails() {
    assert!(matches!(Frame::parse(b"\x00\x00"), Err(NsqError::Decode(_))));
}

#[test]
fn size_field_must_match() {
    let mut b = frame_bytes(0, b"OK");
    b[3] = 99;
    assert!(matches!(Frame::parse(&b), Err(NsqError::Decode(_))));
}

#[test]
fn reencode_recovers_canonical_bytes() {
    let cases: Vec<Vec<u8>> = vec![
        frame_bytes(0, b"OK"),
        frame_bytes(0, b"_heartbeat_"),
        frame_bytes(0, b"{\"tls_v1\":false}"),
        frame_bytes(1, b"E_FIN_FAILED"),
        frame_bytes(2, &msg_payload(5, 2, "abcdefghijklmnop", b"payload")),
    ];
    for bytes in cases {
        let f = Frame::parse(&bytes).unwrap();
        assert_eq!(f.encode(), bytes);
    }
}

#[test]
fn close_wait_reencodes_as_ok() {
    let f = Frame::parse(&frame_bytes(0, b"CLOSE_WAIT")).unwrap();
    assert_eq!(f.encode(), frame_bytes(0, b"OK"));
}

#[test]
fn decode_msg_returns_fields() {
    let payload = msg_payload(9, 4, "ABCDEFGHIJKLMNOP", b"xy");
    let (ts, at, id, body) = decode_msg(&payload).unwrap();
    assert_eq!(ts, 9);
    assert_eq!(at, 4);
    assert_eq!(id, "ABCDEFGHIJKLMNOP");
    assert_eq!(body, b"xy".to_vec());
}
