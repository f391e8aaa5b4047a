//! The response frame payloads: `OK`, heartbeats, and JSON bodies.

use vstd::prelude::*;
use vstd::utf8::{decode_utf8, encode_utf8, valid_utf8};
use crate::codec::Decoder;
use crate::error::NsqError;
use crate::wire::{slice_eq, string_from_utf8};
use crate::codec::slice_to_vec;
use vstd::string::StringExecFns;

verus! {

/// A response frame payload, already classified.
#[derive(Debug)]
pub enum Response {
    /// The periodic liveness probe, `_heartbeat_`.
    HeartBeat,
    /// `OK`, or the close acknowledgement `CLOSE_WAIT`.
    Okay,
    /// Any other text payload, expected to be a JSON body.
    Json(String),
}

/// The bytes of `"OK"`.
pub open spec fn spec_ok_bytes() -> Seq<u8> {
    seq![79u8, 75]
}

/// The bytes of `"CLOSE_WAIT"`.
pub open spec fn spec_close_wait_bytes() -> Seq<u8> {
    seq![67u8, 76, 79, 83, 69, 95, 87, 65, 73, 84]
}

/// The bytes of `"_heartbeat_"`.
pub open spec fn spec_heartbeat_bytes() -> Seq<u8> {
    seq![95u8, 104, 101, 97, 114, 116, 98, 101, 97, 116, 95]
}

/// The payloads that classify as the response `r`: the two acknowledgement
/// strings, the heartbeat string, or any other text as JSON.
pub open spec fn spec_response_decodes(buf: Seq<u8>, r: Response) -> bool {
    if buf == spec_ok_bytes() || buf == spec_close_wait_bytes() {
        r is Okay
    } else if buf == spec_heartbeat_bytes() {
        r is HeartBeat
    } else {
        &&& valid_utf8(buf)
        &&& r matches Response::Json(s)
        &&& s@ == decode_utf8(buf)
    }
}

/// The payloads a response cannot be read from: none of the fixed strings,
/// and not text either.
pub open spec fn spec_response_fails(buf: Seq<u8>) -> bool {
    &&& buf != spec_ok_bytes()
    &&& buf != spec_close_wait_bytes()
    &&& buf != spec_heartbeat_bytes()
    &&& !valid_utf8(buf)
}

impl Response {
    /// Classify a response payload.
    pub fn decode_payload(buf: &[u8]) -> (r: Result<Response, NsqError>)
        ensures
            r matches Ok(v) ==> spec_response_decodes(buf@, v),
            r is Err <==> spec_response_fails(buf@),
            r matches Err(n) ==> n is Decode,
    {
        let ok: Vec<u8> = vec![79u8, 75];
        let close_wait: Vec<u8> = vec![67u8, 76, 79, 83, 69, 95, 87, 65, 73, 84];
        let heartbeat: Vec<u8> = vec![95u8, 104, 101, 97, 114, 116, 98, 101, 97, 116, 95];
        proof {
            assert(ok@ =~= spec_ok_bytes());
            assert(close_wait@ =~= spec_close_wait_bytes());
            assert(heartbeat@ =~= spec_heartbeat_bytes());
        }
        if slice_eq(buf, ok.as_slice()) || slice_eq(buf, close_wait.as_slice()) {
            Ok(Response::Okay)
        } else if slice_eq(buf, heartbeat.as_slice()) {
            Ok(Response::HeartBeat)
        } else {
            match string_from_utf8(slice_to_vec(buf)) {
                Some(s) => Ok(Response::Json(s)),
                None => Err(
                    NsqError::Decode(String::from_str("response payload is not text")),
                ),
            }
        }
    }
}

impl Decoder for Response {
    type Error = NsqError;

    open spec fn spec_decodes(buf: Seq<u8>, r: Response) -> bool {
        spec_response_decodes(buf, r)
    }

    open spec fn spec_fails(buf: Seq<u8>) -> bool {
        spec_response_fails(buf)
    }

    fn decode(buf: &[u8]) -> (r: Result<Response, NsqError>) {
        Response::decode_payload(buf)
    }
}

impl Response {
    /// The canonical payload this response re-encodes to. `Ok` renders as
    /// `"OK"`; a `CLOSE_WAIT` acknowledgement is not reproduced.
    pub open spec fn spec_payload(self) -> Seq<u8> {
        match self {
            Response::Okay => spec_ok_bytes(),
            Response::HeartBeat => spec_heartbeat_bytes(),
            Response::Json(s) => encode_utf8(s@),
        }
    }

    /// Render the canonical payload of this response.
    pub fn payload_bytes(&self) -> (r: Vec<u8>)
        ensures
            r@ == self.spec_payload(),
    {
        match self {
            Response::Okay => {
                let r: Vec<u8> = vec![79u8, 75];
                proof {
                    assert(r@ =~= spec_ok_bytes());
                }
                r
            },
            Response::HeartBeat => {
                let r: Vec<u8> = vec![95u8, 104, 101, 97, 114, 116, 98, 101, 97, 116, 95];
                proof {
                    assert(r@ =~= spec_heartbeat_bytes());
                }
                r
            },
            Response::Json(s) => s.as_str().as_bytes_vec(),
        }
    }
}

} // verus!
