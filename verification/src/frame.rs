//! Inbound frames: `{u32 size, u32 frame_type, payload[size - 4]}` with
//! frame type 0 for a response, 1 for an error and 2 for a message.

use vstd::prelude::*;
use vstd::string::StringSliceAdditionalSpecFns;
use vstd::string::StrSliceExecFns;
use vstd::utf8::{decode_utf8, encode_utf8, valid_utf8};
use vstd::utf8::{decode_utf8_encode_utf8, encode_utf8_decode_utf8, encode_utf8_valid_utf8};
use vstd::slice::slice_subrange;
use crate::codec::Decoder;
use crate::error::{Error, NsqError};
use crate::msg::{spec_msg_decodes, spec_msg_fails, Msg};
use crate::response::{
    spec_close_wait_bytes, spec_heartbeat_bytes, spec_ok_bytes, spec_response_decodes,
    spec_response_fails, Response,
};
use crate::wire::{
    push_be_i64, push_be_u16, push_be_u32, push_slice, read_be_u32, spec_be_i64, spec_be_u16,
    spec_be_u32, spec_be_val, spec_i64_of_be, string_from_utf8, lemma_be_u16_inverse,
    lemma_be_u32_inverse, lemma_be_i64_inverse, lemma_be_u16_round_trip, lemma_be_u32_round_trip,
    lemma_be_i64_round_trip, lemma_be_val4,
};
use vstd::string::StringExecFns;

verus! {

/// A decoded inbound frame.
#[derive(Debug)]
pub enum Frame {
    /// A response payload (frame type 0).
    Response(Response),
    /// A message record (frame type 2).
    Msg(Msg),
    /// A protocol error kind (frame type 1).
    Error(Error),
}

/// A whole frame: 4 size bytes counting everything after themselves, 4 frame
/// type bytes, and the payload.
pub open spec fn spec_frame_header(ftype: u32, payload: Seq<u8>) -> Seq<u8> {
    spec_be_u32((payload.len() + 4) as u32) + spec_be_u32(ftype) + payload
}

/// The canonical payload of a message record.
pub open spec fn spec_msg_payload(m: Msg) -> Seq<u8> {
    spec_be_i64(m.timestamp) + spec_be_u16(m.attempts) + encode_utf8(m.id@) + m.body@
}

/// The canonical byte string of a frame.
pub open spec fn spec_frame_encode(f: Frame) -> Seq<u8> {
    match f {
        Frame::Response(r) => spec_frame_header(0, r.spec_payload()),
        Frame::Error(e) => spec_frame_header(1, e.spec_wire()),
        Frame::Msg(m) => spec_frame_header(2, spec_msg_payload(m)),
    }
}

/// Field bounds the wire format forces on a frame to be encoded: the payload
/// and its size field must fit, and a message id is exactly 16 bytes.
pub open spec fn spec_frame_wf(f: Frame) -> bool {
    match f {
        Frame::Response(r) => r.spec_payload().len() + 4 <= 0xFFFF_FFFF,
        Frame::Error(_) => true,
        Frame::Msg(m) => encode_utf8(m.id@).len() == 16 && m.body@.len() + 30 <= 0xFFFF_FFFF,
    }
}

/// A frame whose canonical byte string decodes back to itself: a `Json`
/// response must not read as one of the three fixed response strings.
pub open spec fn spec_frame_canonical(f: Frame) -> bool {
    match f {
        Frame::Response(Response::Json(s)) => encode_utf8(s@) != spec_ok_bytes() && encode_utf8(s@)
            != spec_close_wait_bytes() && encode_utf8(s@) != spec_heartbeat_bytes(),
        _ => true,
    }
}

/// The byte strings that decode to the frame `f`.
pub open spec fn spec_frame_decodes(buf: Seq<u8>, f: Frame) -> bool {
    &&& buf.len() >= 8
    &&& spec_be_val(buf.subrange(0, 4)) == buf.len() - 4
    &&& match f {
        Frame::Response(r) => spec_be_val(buf.subrange(4, 8)) == 0 && spec_response_decodes(
            buf.skip(8),
            r,
        ),
        Frame::Error(e) => spec_be_val(buf.subrange(4, 8)) == 1 && Error::spec_parse(buf.skip(8))
            == Some(e),
        Frame::Msg(m) => spec_be_val(buf.subrange(4, 8)) == 2 && spec_msg_decodes(buf.skip(8), m),
    }
}

/// The byte strings no frame can be read from.
pub open spec fn spec_frame_fails(buf: Seq<u8>) -> bool {
    ||| buf.len() < 8
    ||| spec_be_val(buf.subrange(0, 4)) != buf.len() - 4
    ||| (spec_be_val(buf.subrange(4, 8)) == 0 && spec_response_fails(buf.skip(8)))
    ||| (spec_be_val(buf.subrange(4, 8)) == 1 && Error::spec_parse(buf.skip(8)) is None)
    ||| (spec_be_val(buf.subrange(4, 8)) == 2 && spec_msg_fails(buf.skip(8)))
    ||| spec_be_val(buf.subrange(4, 8)) > 2
}

impl Frame {
    /// Decode one whole frame from its exact byte string.
    pub fn parse(buf: &[u8]) -> (r: Result<Frame, NsqError>)
        ensures
            r matches Ok(f) ==> spec_frame_decodes(buf@, f),
            r is Err <==> spec_frame_fails(buf@),
            r matches Err(n) ==> n is Decode,
    {
        if buf.len() < 8 {
            return Err(NsqError::Decode(String::from_str("frame shorter than its header")));
        }
        let size = read_be_u32(buf, 0);
        proof {
            lemma_be_val4(buf@.subrange(0, 4));
        }
        if size as usize != buf.len() - 4 {
            return Err(NsqError::Decode(String::from_str("frame size field does not match")));
        }
        let ftype = read_be_u32(buf, 4);
        let payload = slice_subrange(buf, 8, buf.len());
        proof {
            assert(payload@ =~= buf@.skip(8));
        }
        if ftype == 0 {
            match Response::decode_payload(payload) {
                Ok(resp) => Ok(Frame::Response(resp)),
                Err(e) => Err(e),
            }
        } else if ftype == 1 {
            match Error::from_wire(payload) {
                Ok(err) => Ok(Frame::Error(err)),
                Err(e) => Err(e),
            }
        } else if ftype == 2 {
            match crate::msg::decode_msg(payload) {
                Ok((timestamp, attempts, id, body)) => Ok(
                    Frame::Msg(Msg { timestamp, attempts, id, body }),
                ),
                Err(e) => Err(e),
            }
        } else {
            Err(NsqError::Decode(String::from_str("unsupported frame type")))
        }
    }

    /// Re-encode this frame into its canonical byte string.
    pub fn encode(&self) -> (r: Vec<u8>)
        requires
            spec_frame_wf(*self),
        ensures
            r@ == spec_frame_encode(*self),
    {
        let (ftype, payload): (u32, Vec<u8>) = match self {
            Frame::Response(resp) => (0, resp.payload_bytes()),
            Frame::Error(e) => (1, e.wire_bytes()),
            Frame::Msg(m) => {
                let mut p: Vec<u8> = Vec::new();
                push_be_i64(&mut p, m.timestamp);
                push_be_u16(&mut p, m.attempts);
                push_slice(&mut p, m.id.as_str().as_bytes());
                push_slice(&mut p, m.body.as_slice());
                proof {
                    assert(p@ =~= spec_msg_payload(*m));
                }
                (2, p)
            },
        };
        let mut r: Vec<u8> = Vec::new();
        push_be_u32(&mut r, payload.len() as u32 + 4);
        push_be_u32(&mut r, ftype);
        push_slice(&mut r, payload.as_slice());
        proof {
            assert(r@ =~= spec_frame_encode(*self));
        }
        r
    }
}

/// Decoding the canonical byte string of a well-formed canonical frame
/// recovers that frame.
pub proof fn lemma_frame_round_trip(f: Frame)
    requires
        spec_frame_wf(f),
        spec_frame_canonical(f),
    ensures
        spec_frame_decodes(spec_frame_encode(f), f),
{
    let buf = spec_frame_encode(f);
    let ftype: u32 = match f {
        Frame::Response(_) => 0,
        Frame::Error(_) => 1,
        Frame::Msg(_) => 2,
    };
    let payload: Seq<u8> = match f {
        Frame::Response(r) => r.spec_payload(),
        Frame::Error(e) => e.spec_wire(),
        Frame::Msg(m) => spec_msg_payload(m),
    };
    assert(buf =~= spec_be_u32((payload.len() + 4) as u32) + spec_be_u32(ftype) + payload);
    assert(buf.subrange(0, 4) =~= spec_be_u32((payload.len() + 4) as u32));
    assert(buf.subrange(4, 8) =~= spec_be_u32(ftype));
    assert(buf.skip(8) =~= payload);
    lemma_be_u32_round_trip((payload.len() + 4) as u32);
    lemma_be_u32_round_trip(ftype);
    match f {
        Frame::Response(r) => {
            match r {
                Response::Okay => {
                    assert(spec_response_decodes(payload, r));
                },
                Response::HeartBeat => {
                    assert(payload != spec_ok_bytes() && payload != spec_close_wait_bytes()) by {
                        assert(spec_heartbeat_bytes().len() == 11);
                        assert(spec_ok_bytes().len() == 2);
                        assert(spec_close_wait_bytes().len() == 10);
                    }
                    assert(spec_response_decodes(payload, r));
                },
                Response::Json(s) => {
                    encode_utf8_valid_utf8(s@);
                    encode_utf8_decode_utf8(s@);
                    assert(spec_response_decodes(payload, r));
                },
            }
        },
        Frame::Error(e) => {
            crate::error::Error::lemma_wire_round_trip(e);
        },
        Frame::Msg(m) => {
            assert(payload.subrange(0, 8) =~= spec_be_i64(m.timestamp));
            assert(payload.subrange(8, 10) =~= spec_be_u16(m.attempts));
            assert(payload.subrange(10, 26) =~= encode_utf8(m.id@));
            assert(payload.skip(26) =~= m.body@);
            lemma_be_i64_round_trip(m.timestamp);
            lemma_be_u16_round_trip(m.attempts);
            encode_utf8_valid_utf8(m.id@);
            encode_utf8_decode_utf8(m.id@);
            assert(spec_msg_decodes(payload, m));
        },
    }
}

/// Re-encoding a frame decoded from canonical bytes yields the original byte
/// string. Canonical excludes only a `CLOSE_WAIT` acknowledgement, which
/// re-encodes as `OK`.
pub proof fn lemma_frame_reencode(buf: Seq<u8>, f: Frame)
    requires
        spec_frame_decodes(buf, f),
        buf.skip(8) != spec_close_wait_bytes(),
    ensures
        spec_frame_encode(f) == buf,
{
    let payload = buf.skip(8);
    let head = buf.subrange(0, 4);
    let tf = buf.subrange(4, 8);
    assert(buf =~= head + tf + payload);
    assert(payload.len() == buf.len() - 8);
    lemma_be_u32_inverse(head);
    lemma_be_u32_inverse(tf);
    match f {
        Frame::Response(r) => {
            assert(spec_be_u32(0) == tf);
            match r {
                Response::Okay => {
                    assert(payload == spec_ok_bytes());
                },
                Response::HeartBeat => {
                    assert(payload == spec_heartbeat_bytes());
                },
                Response::Json(s) => {
                    assert(valid_utf8(payload) && s@ == decode_utf8(payload));
                    decode_utf8_encode_utf8(payload);
                    assert(r.spec_payload() == payload);
                },
            }
            assert(spec_be_u32((payload.len() + 4) as u32) == head);
            assert(spec_frame_encode(f) =~= buf);
        },
        Frame::Error(e) => {
            assert(spec_be_u32(1) == tf);
            assert(payload == e.spec_wire());
            assert(spec_frame_encode(f) =~= buf);
        },
        Frame::Msg(m) => {
            assert(spec_be_u32(2) == tf);
            lemma_be_i64_inverse(payload.subrange(0, 8));
            lemma_be_u16_inverse(payload.subrange(8, 10));
            assert(spec_be_i64(m.timestamp) == payload.subrange(0, 8));
            assert(spec_be_u16(m.attempts) == payload.subrange(8, 10));
            decode_utf8_encode_utf8(payload.subrange(10, 26));
            assert(encode_utf8(m.id@) == payload.subrange(10, 26));
            assert(m.body@ == payload.skip(26));
            assert(spec_msg_payload(m) =~= payload);
            assert(spec_frame_encode(f) =~= buf);
        },
    }
}

} // verus!
