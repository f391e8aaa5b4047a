//! End-to-end handshake scenarios driven against the engine, with every
//! write collected in order.

use nsq_client::codec::{Encoder, Pub};
use nsq_client::config::{ConfigBuilder, ConfigResponse};
use nsq_client::error::{Error, NsqError};
use nsq_client::frame::Frame;
use nsq_client::handshake::{Handshake, HsAction, HsEvent};
use nsq_client::publish::classify_publish_response;
use nsq_client::response::Response;

fn identify_bytes(json: &[u8]) -> Vec<u8> {
    let mut b = b"IDENTIFY\n".to_vec();
    b.extend_from_slice(&(json.len() as u32).to_be_bytes());
    b.extend_from_slice(json);
    b
}

fn negotiated(tls: bool, auth: bool) -> ConfigResponse {
    let mut n = ConfigResponse::default();
    n.max_rdy_count = 2500;
    n.tls_v1 = tls;
    n.auth_required = auth;
    n
}

#[test]
fn plain_publish_writes_in_order() {
    let config = ConfigBuilder::new().client_id(None).hostname(None).tls_v1(false).build();
    let json = config.to_json();
    let mut hs = Handshake::new(config);
    let mut writes: Vec<Vec<u8>> = Vec::new();

    let a = hs.step(HsEvent::Begin);
    match a {
        HsAction::Write(b) => writes.push(b),
        _ => panic!("expected a write"),
    }
    let a = hs.step(HsEvent::Sent);
    match a {
        HsAction::Write(b) => writes.push(b),
        _ => panic!("expected a write"),
    }
    assert!(matches!(hs.step(HsEvent::Sent), HsAction::Read));
    let cfg_json = "{\"tls_v1\":false,\"auth_required\":false}".to_string();
    let a = hs.step(HsEvent::Frame(Frame::Response(Response::Json(cfg_json.clone()))));
    match a {
        HsAction::ParseConfig(s) => assert_eq!(s, cfg_json),
        _ => panic!("expected the JSON handed out for parsing"),
    }
    assert!(matches!(
        hs.step(HsEvent::ConfigParsed(negotiated(false, false))),
        HsAction::Finish
    ));
    assert!(hs.is_ready());

    // The producer path: one command, one response.
    let cmd = Pub::with_topic_msg("topic", b"ciao").encode();
    writes.push(cmd);

    assert_eq!(writes[0], b"  V2".to_vec());
    assert_eq!(writes[1], identify_bytes(&json));
    let mut expected_pub = b"PUB topic\n".to_vec();
    expected_pub.extend_from_slice(&4u32.to_be_bytes());
    expected_pub.extend_from_slice(b"ciao");
    assert_eq!(writes[2], expected_pub);

    let outcome = classify_publish_response(Frame::Response(Response::Okay));
    assert!(matches!(outcome, Ok(Response::Okay)));
}

#[test]
fn tls_and_auth_publish_order() {
    let config = ConfigBuilder::new()
        .client_id(None)
        .hostname(None)
        .tls_v1(true)
        .auth("secret".to_string())
        .build();
    let mut hs = Handshake::new(config);
    let mut writes: Vec<Vec<u8>> = Vec::new();

    match hs.step(HsEvent::Begin) {
        HsAction::Write(b) => writes.push(b),
        _ => panic!("expected the magic"),
    }
    match hs.step(HsEvent::Sent) {
        HsAction::Write(b) => writes.push(b),
        _ => panic!("expected the negotiation request"),
    }
    assert!(matches!(hs.step(HsEvent::Sent), HsAction::Read));
    let a = hs.step(HsEvent::Frame(Frame::Response(Response::Json("{}".to_string()))));
    assert!(matches!(a, HsAction::ParseConfig(_)));
    // Both sides want TLS: the upgrade comes before anything else.
    assert!(matches!(
        hs.step(HsEvent::ConfigParsed(negotiated(true, true))),
        HsAction::StartTls
    ));
    assert!(matches!(hs.step(HsEvent::TlsEstablished), HsAction::Read));
    // The server confirms on the fresh stream, then authentication runs.
    match hs.step(HsEvent::Frame(Frame::Response(Response::Okay))) {
        HsAction::Write(b) => writes.push(b),
        _ => panic!("expected the authentication request"),
    }
    assert!(matches!(hs.step(HsEvent::Sent), HsAction::Read));
    let auth_json = "{\"identity\":\"x\",\"permission_count\":1}".to_string();
    match hs.step(HsEvent::Frame(Frame::Response(Response::Json(auth_json.clone())))) {
        HsAction::ParseAuth(s) => assert_eq!(s, auth_json),
        _ => panic!("expected the JSON handed out for parsing"),
    }
    let parsed = nsq_client::auth::AuthResponse {
        identity: "x".to_string(),
        identity_url: None,
        permission_count: 1,
    };
    assert!(matches!(hs.step(HsEvent::AuthParsed(parsed)), HsAction::Finish));
    assert!(hs.is_ready());

    assert_eq!(writes[0], b"  V2".to_vec());
    assert!(writes[1].starts_with(b"IDENTIFY\n"));
    let mut expected_auth = b"AUTH\n".to_vec();
    expected_auth.extend_from_slice(&6u32.to_be_bytes());
    expected_auth.extend_from_slice(b"secret");
    assert_eq!(writes[2], expected_auth);

    let outcome = classify_publish_response(Frame::Response(Response::Okay));
    assert!(matches!(outcome, Ok(Response::Okay)));
}

#[test]
fn protocol_error_on_publish_is_surfaced() {
    let outcome = classify_publish_response(Frame::Error(Error::Topic));
    match outcome {
        Err(NsqError::Protocol(Error::Topic)) => {},
        _ => panic!("expected the bad-topic protocol error"),
    }
}

#[test]
fn auth_required_without_token_fails_before_auth() {
    let config = ConfigBuilder::new().client_id(None).hostname(None).build();
    let mut hs = Handshake::new(config);
    let mut writes: Vec<Vec<u8>> = Vec::new();

    match hs.step(HsEvent::Begin) {
        HsAction::Write(b) => writes.push(b),
        _ => panic!("expected the magic"),
    }
    match hs.step(HsEvent::Sent) {
        HsAction::Write(b) => writes.push(b),
        _ => panic!("expected the negotiation request"),
    }
    assert!(matches!(hs.step(HsEvent::Sent), HsAction::Read));
    let a = hs.step(HsEvent::Frame(Frame::Response(Response::Json("{}".to_string()))));
    assert!(matches!(a, HsAction::ParseConfig(_)));
    match hs.step(HsEvent::ConfigParsed(negotiated(false, true))) {
        HsAction::Fail(NsqError::ConfigMismatch(m)) => assert_eq!(m, "auth token required"),
        _ => panic!("expected the configuration mismatch"),
    }
    assert!(!hs.is_ready());
    // Nothing that looks like an authentication request ever went out.
    for w in &writes {
        assert!(!w.starts_with(b"AUTH"));
    }
}

#[test]
fn error_frame_during_negotiation_fails_the_handshake() {
    let config = ConfigBuilder::new().client_id(None).hostname(None).build();
    let mut hs = Handshake::new(config);
    hs.step(HsEvent::Begin);
    hs.step(HsEvent::Sent);
    hs.step(HsEvent::Sent);
    match hs.step(HsEvent::Frame(Frame::Error(Error::Invalid))) {
        HsAction::Fail(NsqError::Protocol(Error::Invalid)) => {},
        _ => panic!("expected the protocol error"),
    }
}

#[test]
fn tls_skipped_unless_both_sides_want_it() {
    // Requested but not negotiated: straight to ready.
    let config = ConfigBuilder::new().client_id(None).hostname(None).tls_v1(true).build();
    let mut hs = Handshake::new(config);
    hs.step(HsEvent::Begin);
    hs.step(HsEvent::Sent);
    hs.step(HsEvent::Sent);
    hs.step(HsEvent::Frame(Frame::Response(Response::Json("{}".to_string()))));
    assert!(matches!(
        hs.step(HsEvent::ConfigParsed(negotiated(false, false))),
        HsAction::Finish
    ));
    // Negotiated but not requested: also straight to ready.
    let config = ConfigBuilder::new().client_id(None).hostname(None).tls_v1(false).build();
    let mut hs = Handshake::new(config);
    hs.step(HsEvent::Begin);
    hs.step(HsEvent::Sent);
    hs.step(HsEvent::Sent);
    hs.step(HsEvent::Frame(Frame::Response(Response::Json("{}".to_string()))));
    assert!(matches!(
        hs.step(HsEvent::ConfigParsed(negotiated(true, false))),
        HsAction::Finish
    ));
}
