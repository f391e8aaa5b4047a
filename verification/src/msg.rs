//! The message record carried by a message frame.

use vstd::prelude::*;
use vstd::string::StringExecFns;
use vstd::utf8::{decode_utf8, valid_utf8};
use crate::codec::Decoder;
use crate::error::NsqError;
use crate::wire::{
    range_to_vec, read_be_i64, read_be_u16, spec_be_val, spec_i64_of_be, string_from_utf8,
};

verus! {

/// The number of payload bytes before the body: an 8-byte timestamp, a
/// 2-byte attempt count and a 16-byte id.
pub const MSG_HEADER_LEN: usize = 26;

/// A message delivered by the server. Created only by the frame decoder and
/// never mutated afterwards.
#[derive(Debug)]
pub struct Msg {
    /// Nanosecond timestamp assigned by the server.
    pub timestamp: i64,
    /// How many times this message has been attempted.
    pub attempts: u16,
    /// The 16-byte message id.
    pub id: String,
    /// The message body.
    pub body: Vec<u8>,
}

/// The payloads that decode to the record `m`.
pub open spec fn spec_msg_decodes(buf: Seq<u8>, m: Msg) -> bool {
    &&& buf.len() >= 26
    &&& m.timestamp == spec_i64_of_be(buf.subrange(0, 8))
    &&& m.attempts == spec_be_val(buf.subrange(8, 10))
    &&& valid_utf8(buf.subrange(10, 26))
    &&& m.id@ == decode_utf8(buf.subrange(10, 26))
    &&& m.body@ == buf.skip(26)
}

/// The payloads a message record cannot be read from: a short header, or an
/// id that is not text.
pub open spec fn spec_msg_fails(buf: Seq<u8>) -> bool {
    buf.len() < 26 || !valid_utf8(buf.subrange(10, 26))
}

/// Decode a message frame payload: big-endian timestamp and attempt count,
/// 16-byte id, and the rest as the body.
pub fn decode_msg(buf: &[u8]) -> (r: Result<(i64, u16, String, Vec<u8>), NsqError>)
    ensures
        r matches Ok(t) ==> spec_msg_decodes(
            buf@,
            Msg { timestamp: t.0, attempts: t.1, id: t.2, body: t.3 },
        ),
        r is Err <==> spec_msg_fails(buf@),
        r matches Err(n) ==> n is Decode,
{
    if buf.len() < MSG_HEADER_LEN {
        return Err(NsqError::Decode(String::from_str("message payload shorter than its header")));
    }
    let timestamp = read_be_i64(buf, 0);
    let attempts = read_be_u16(buf, 8);
    let id_bytes = range_to_vec(buf, 10, 26);
    let id = match string_from_utf8(id_bytes) {
        Some(s) => s,
        None => {
            return Err(NsqError::Decode(String::from_str("message id is not text")));
        },
    };
    let body = range_to_vec(buf, 26, buf.len());
    proof {
        assert(buf@.subrange(26, buf@.len() as int) =~= buf@.skip(26));
    }
    Ok((timestamp, attempts, id, body))
}

impl Decoder for Msg {
    type Error = NsqError;

    open spec fn spec_decodes(buf: Seq<u8>, m: Msg) -> bool {
        spec_msg_decodes(buf, m)
    }

    open spec fn spec_fails(buf: Seq<u8>) -> bool {
        spec_msg_fails(buf)
    }

    fn decode(buf: &[u8]) -> (r: Result<Msg, NsqError>) {
        match decode_msg(buf) {
            Ok((timestamp, attempts, id, body)) => Ok(Msg { timestamp, attempts, id, body }),
            Err(e) => Err(e),
        }
    }
}

} // verus!
