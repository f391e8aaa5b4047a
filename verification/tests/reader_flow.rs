//! The framed reader: whole frames only, in order, with single-shot
//! termination and reset.

use nsq_client::error::NsqError;
use nsq_client::frame::Frame;
use nsq_client::reader::NsqIO;
use nsq_client::response::Response;

fn frame_bytes(ftype: u32, payload: &[u8]) -> Vec<u8> {
    let mut b = ((payload.len() + 4) as u32).to_be_bytes().to_vec();
    b.extend_from_slice(&ftype.to_be_bytes());
    b.extend_from_slice(payload);
    b
}

#[test]
fn one_valid_frame_yields_exactly_one_frame() {
    let mut io = NsqIO::new();
    io.feed(&frame_bytes(0, b"OK"));
    let first = io.next_frame();
    assert!(matches!(first, Some(Ok(Frame::Response(Response::Okay)))));
    assert!(io.next_frame().is_none());
}

#[test]
fn partial_frame_not_yielded_until_complete() {
    let whole = frame_bytes(0, b"_heartbeat_");
    let (left, right) = whole.split_at(7);
    let mut io = NsqIO::new();
    io.feed(left);
    assert!(io.next_frame().is_none());
    io.feed(right);
    assert!(matches!(io.next_frame(), Some(Ok(Frame::Response(Response::HeartBeat)))));
}

#[test]
fn frames_come_out_in_wire_order() {
    let mut bytes = frame_bytes(0, b"OK");
    bytes.extend_from_slice(&frame_bytes(0, b"_heartbeat_"));
    let mut io = NsqIO::new();
    io.feed(&bytes);
    assert!(matches!(io.next_frame(), Some(Ok(Frame::Response(Response::Okay)))));
    assert!(matches!(io.next_frame(), Some(Ok(Frame::Response(Response::HeartBeat)))));
    assert!(io.next_frame().is_none());
}

#[test]
fn impossible_size_field_is_a_decode_error() {
    let mut io = NsqIO::new();
    io.feed(&[0, 0, 0, 2, 0, 0]);
    assert!(matches!(io.next_frame(), Some(Err(NsqError::Decode(_)))));
}

#[test]
fn eof_reported_once_then_sequence_ends() {
    let mut io = NsqIO::new();
    let first = io.on_eof();
    assert!(matches!(first, Some(NsqError::Io(_))));
    assert!(io.on_eof().is_none());
    io.feed(&frame_bytes(0, b"OK"));
    assert!(io.next_frame().is_none());
}

#[test]
fn reset_clears_termination() {
    let mut io = NsqIO::new();
    io.on_eof();
    io.feed(&frame_bytes(0, b"OK"));
    assert!(io.next_frame().is_none());
    io.reset();
    assert!(matches!(io.next_frame(), Some(Ok(Frame::Response(Response::Okay)))));
}

#[test]
fn undecodable_frame_is_error_and_consumed() {
    let mut bytes = frame_bytes(7, b"??");
    bytes.extend_from_slice(&frame_bytes(0, b"OK"));
    let mut io = NsqIO::new();
    io.feed(&bytes);
    assert!(matches!(io.next_frame(), Some(Err(NsqError::Decode(_)))));
    // A decode failure terminates the sequence until a reset.
    assert!(io.next_frame().is_none());
    io.reset();
    assert!(matches!(io.next_frame(), Some(Ok(Frame::Response(Response::Okay)))));
}
