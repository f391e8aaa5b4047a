//! Exact byte layouts of every encoded command.

use nsq_client::codec::{
    Auth, Cls, Dpub, Encoder, Fin, Identify, Magic, Mpub, Nop, Pub, Rdy, Req, Sub, Touch,
};

#[test]
fn magic_bytes() {
    assert_eq!(Magic.encode(), b"  V2".to_vec());
}

#[test]
fn nop_bytes() {
    assert_eq!(Nop.encode(), b"NOP\n".to_vec());
}

#[test]
fn cls_bytes() {
    assert_eq!(Cls.encode(), b"CLS\n".to_vec());
}

#[test]
fn identify_bytes() {
    let cfg = "{\"feature_negotiation\":true}";
    let mut expected = b"IDENTIFY\n".to_vec();
    expected.extend_from_slice(&(cfg.len() as u32).to_be_bytes());
    expected.extend_from_slice(cfg.as_bytes());
    assert_eq!(Identify::with_config(cfg).encode(), expected);
}

#[test]
fn auth_bytes() {
    let mut expected = b"AUTH\n".to_vec();
    expected.extend_from_slice(&6u32.to_be_bytes());
    expected.extend_from_slice(b"secret");
    assert_eq!(Auth::with_auth("secret").encode(), expected);
}

#[test]
fn sub_topic_before_channel() {
    let sub = Sub::with_channel_topic("chan", "topic");
    assert_eq!(sub.encode(), b"SUB topic chan\n".to_vec());
}

#[test]
fn rdy_bytes() {
    assert_eq!(Rdy::with_str("2").encode(), b"RDY 2\n".to_vec());
    assert_eq!(Rdy::with_count(50).encode(), b"RDY 50\n".to_vec());
    assert_eq!(Rdy::with_count(0).encode(), b"RDY 0\n".to_vec());
}

#[test]
fn pub_bytes() {
    let mut expected = b"PUB topic\n".to_vec();
    expected.extend_from_slice(&4u32.to_be_bytes());
    expected.extend_from_slice(b"ciao");
    assert_eq!(Pub::with_topic_msg("topic", b"ciao").encode(), expected);
}

#[test]
fn pub_empty_topic_and_body_accepted() {
    let mut expected = b"PUB \n".to_vec();
    expected.extend_from_slice(&0u32.to_be_bytes());
    assert_eq!(Pub::with_topic_msg("", b"").encode(), expected);
}

#[test]
fn mpub_bytes() {
    let bodies = vec![b"one".to_vec(), b"second".to_vec()];
    let mpub = Mpub::with_topic_msgs("topic", bodies);
    let mut expected = b"MPUB topic\n".to_vec();
    // total: (4 + 3) + (4 + 6)
    expected.extend_from_slice(&17u32.to_be_bytes());
    expected.extend_from_slice(&2u32.to_be_bytes());
    expected.extend_from_slice(&3u32.to_be_bytes());
    expected.extend_from_slice(b"one");
    expected.extend_from_slice(&6u32.to_be_bytes());
    expected.extend_from_slice(b"second");
    assert_eq!(mpub.encode(), expected);
}

#[test]
fn dpub_bytes() {
    let mut expected = b"DPUB topic 5000\n".to_vec();
    expected.extend_from_slice(&2u32.to_be_bytes());
    expected.extend_from_slice(b"hi");
    assert_eq!(Dpub::with_topic_time_msg("topic", 5000, b"hi").encode(), expected);
}

#[test]
fn touch_fin_req_bytes() {
    assert_eq!(Touch::with_id("0123456789abcdef").encode(), b"TOUCH 0123456789abcdef\n".to_vec());
    assert_eq!(Fin::with_id("0123456789abcdef").encode(), b"FIN 0123456789abcdef\n".to_vec());
    assert_eq!(
        Req::with_id_timeout("0123456789abcdef", 30000).encode(),
        b"REQ 0123456789abcdef 30000\n".to_vec()
    );
    assert_eq!(Req::with_id_timeout("x", 0).encode(), b"REQ x 0\n".to_vec());
}
