//! The consumer path: credit clipping, subscription acknowledgement, and the
//! dispatch loop with its in-flight tracking.

use nsq_client::codec::{Encoder, Rdy};
use nsq_client::consumer::{
    clip_rdy, classify_sub_response, AckCmd, DispatchAction, Dispatcher, InflightTracker,
};
use nsq_client::error::{Error, NsqError};
use nsq_client::frame::Frame;
use nsq_client::msg::Msg;
use nsq_client::response::Response;

fn msg(id: &str, body: &[u8]) -> Msg {
    Msg { timestamp: 1, attempts: 1, id: id.to_string(), body: body.to_vec() }
}

#[test]
fn rdy_clipped_to_the_server_maximum() {
    assert_eq!(clip_rdy(1000, 50), 50);
    assert_eq!(clip_rdy(10, 50), 10);
    assert_eq!(clip_rdy(50, 50), 50);
    assert_eq!(Rdy::with_count(clip_rdy(1000, 50)).encode(), b"RDY 50\n".to_vec());
}

#[test]
fn subscription_needs_a_plain_ok() {
    assert!(classify_sub_response(Frame::Response(Response::Okay)).is_ok());
    match classify_sub_response(Frame::Error(Error::Channel)) {
        Err(NsqError::Protocol(Error::Channel)) => {},
        _ => panic!("expected the bad-channel protocol error"),
    }
    assert!(classify_sub_response(Frame::Response(Response::HeartBeat)).is_err());
}

#[test]
fn heartbeat_between_messages_gets_a_nop() {
    // rdy = 2, server max 10: the credit goes out unclipped.
    assert_eq!(clip_rdy(2, 10), 2);
    let mut d = Dispatcher::new();
    let mut writes: Vec<Vec<u8>> = Vec::new();

    let ida = "aaaaaaaaaaaaaaaa";
    let idb = "bbbbbbbbbbbbbbbb";

    match d.on_frame(Frame::Msg(msg(ida, b"first"))) {
        DispatchAction::Deliver(m) => {
            // The handler acknowledges.
            writes.push(d.on_handler_cmd(&m.id, AckCmd::Fin).unwrap());
        },
        _ => panic!("expected a delivery"),
    }
    match d.on_frame(Frame::Response(Response::HeartBeat)) {
        DispatchAction::Reply(b) => writes.push(b),
        _ => panic!("expected the liveness reply"),
    }
    match d.on_frame(Frame::Msg(msg(idb, b"second"))) {
        DispatchAction::Deliver(m) => {
            writes.push(d.on_handler_cmd(&m.id, AckCmd::Fin).unwrap());
        },
        _ => panic!("expected a delivery"),
    }

    assert_eq!(writes[0], b"FIN aaaaaaaaaaaaaaaa\n".to_vec());
    assert_eq!(writes[1], b"NOP\n".to_vec());
    assert_eq!(writes[2], b"FIN bbbbbbbbbbbbbbbb\n".to_vec());
    assert!(d.inflight_is_empty());
}

#[test]
fn requeue_settles_the_id() {
    let mut d = Dispatcher::new();
    let id = "cccccccccccccccc";
    assert!(matches!(d.on_frame(Frame::Msg(msg(id, b""))), DispatchAction::Deliver(_)));
    assert_eq!(d.inflight_len(), 1);
    let b = d.on_handler_cmd(id, AckCmd::Req(5000)).unwrap();
    assert_eq!(b, b"REQ cccccccccccccccc 5000\n".to_vec());
    assert!(d.inflight_is_empty());
}

#[test]
fn touch_keeps_the_id_and_expects_an_ok() {
    let mut d = Dispatcher::new();
    let id = "dddddddddddddddd";
    assert!(matches!(d.on_frame(Frame::Msg(msg(id, b""))), DispatchAction::Deliver(_)));
    let b = d.on_handler_cmd(id, AckCmd::Touch).unwrap();
    assert_eq!(b, b"TOUCH dddddddddddddddd\n".to_vec());
    assert_eq!(d.inflight_len(), 1);
    assert_eq!(d.pending_ok_count(), 1);
    // The acknowledgement of the extension is consumed silently.
    assert!(matches!(d.on_frame(Frame::Response(Response::Okay)), DispatchAction::Ignore));
    assert_eq!(d.pending_ok_count(), 0);
    // A second, unprompted OK is a protocol violation.
    assert!(matches!(
        d.on_frame(Frame::Response(Response::Okay)),
        DispatchAction::Fatal(NsqError::Decode(_))
    ));
}

#[test]
fn unseen_id_is_never_settled() {
    let mut d = Dispatcher::new();
    assert!(d.on_handler_cmd("eeeeeeeeeeeeeeee", AckCmd::Fin).is_err());
    assert!(d.on_handler_cmd("eeeeeeeeeeeeeeee", AckCmd::Touch).is_err());
    assert!(d.inflight_is_empty());
}

#[test]
fn fatal_and_command_local_errors_are_told_apart() {
    let mut d = Dispatcher::new();
    assert!(matches!(
        d.on_frame(Frame::Error(Error::Fin)),
        DispatchAction::Surface(Error::Fin)
    ));
    assert!(matches!(
        d.on_frame(Frame::Error(Error::Unauthorized)),
        DispatchAction::Fatal(NsqError::Protocol(Error::Unauthorized))
    ));
    assert!(matches!(
        d.on_frame(Frame::Error(Error::Auth)),
        DispatchAction::Fatal(NsqError::Protocol(Error::Auth))
    ));
}

#[test]
fn redelivered_id_is_tracked_once() {
    let mut d = Dispatcher::new();
    let id = "ffffffffffffffff";
    assert!(matches!(d.on_frame(Frame::Msg(msg(id, b"x"))), DispatchAction::Deliver(_)));
    assert!(matches!(d.on_frame(Frame::Msg(msg(id, b"x"))), DispatchAction::Deliver(_)));
    assert_eq!(d.inflight_len(), 1);
    d.on_handler_cmd(id, AckCmd::Fin).unwrap();
    assert!(d.inflight_is_empty());
}

#[test]
fn tracker_membership() {
    let mut t = InflightTracker::new();
    assert!(t.is_empty());
    t.insert("0123456789abcdef".to_string());
    assert!(t.contains("0123456789abcdef"));
    assert!(!t.contains("0123456789abcdeX"));
    assert_eq!(t.len(), 1);
    t.remove("0123456789abcdef");
    assert!(!t.contains("0123456789abcdef"));
    assert!(t.is_empty());
}
