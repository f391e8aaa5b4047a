//! The wire error strings and their classification.

use nsq_client::error::{Error, NsqError};

#[test]
fn every_wire_string_parses_to_its_kind() {
    let table: Vec<(&[u8], Error)> = vec![
        (b"E_INVALID", Error::Invalid),
        (b"E_BAD_BODY", Error::Body),
        (b"E_BAD_TOPIC", Error::Topic),
        (b"E_BAD_CHANNEL", Error::Channel),
        (b"E_BAD_MESSAGE", Error::Message),
        (b"E_PUB_FAILED", Error::Pub),
        (b"E_MPUB_FAILED", Error::Mpub),
        (b"E_DPUB_FAILED", Error::Dpub),
        (b"E_FIN_FAILED", Error::Fin),
        (b"E_REQ_FAILED", Error::Req),
        (b"E_TOUCH_FAILED", Error::Touch),
        (b"E_AUTH_FAILED", Error::Auth),
        (b"E_UNAUTHORIZED", Error::Unauthorized),
    ];
    for (bytes, kind) in table {
        assert_eq!(Error::from_wire(bytes).unwrap(), kind);
        assert_eq!(kind.wire_bytes(), bytes.to_vec());
    }
}

#[test]
fn unknown_wire_string_is_a_decode_error() {
    assert!(matches!(Error::from_wire(b"E_NOT_A_THING"), Err(NsqError::Decode(_))));
    assert!(matches!(Error::from_wire(b""), Err(NsqError::Decode(_))));
    assert!(matches!(Error::from_wire(b"e_invalid"), Err(NsqError::Decode(_))));
}

#[test]
fn only_the_auth_kinds_are_fatal() {
    assert!(Error::Auth.is_fatal());
    assert!(Error::Unauthorized.is_fatal());
    for k in [
        Error::Invalid,
        Error::Body,
        Error::Topic,
        Error::Channel,
        Error::Message,
        Error::Pub,
        Error::Mpub,
        Error::Dpub,
        Error::Fin,
        Error::Req,
        Error::Touch,
    ] {
        assert!(!k.is_fatal());
    }
}

#[test]
fn sum_error_fatality() {
    assert!(NsqError::Io("gone".to_string()).is_fatal());
    assert!(NsqError::Json("bad".to_string()).is_fatal());
    assert!(NsqError::Decode("short".to_string()).is_fatal());
    assert!(NsqError::ConfigMismatch("no token".to_string()).is_fatal());
    assert!(NsqError::Protocol(Error::Auth).is_fatal());
    assert!(!NsqError::Protocol(Error::Fin).is_fatal());
}
