//! Error taxonomy: the wire-level `E_*` error kinds sent by the server and
//! the sum error type the library surfaces to its callers.

use vstd::prelude::*;
use vstd::string::StringExecFns;

verus! {

/// A protocol error kind carried by an error frame, one per `E_*` string.
#[derive(Clone, Copy, Debug, PartialEq, Eq, Structural)]
pub enum Error {
    Invalid,
    Body,
    Topic,
    Channel,
    Message,
    Pub,
    Mpub,
    Dpub,
    Fin,
    Req,
    Touch,
    Auth,
    Unauthorized,
}

impl Error {
    /// The exact wire string of this kind, as bytes.
    pub open spec fn spec_wire(self) -> Seq<u8> {
        match self {
            // "E_INVALID"
            Error::Invalid => seq![69u8, 95, 73, 78, 86, 65, 76, 73, 68],
            // "E_BAD_BODY"
            Error::Body => seq![69u8, 95, 66, 65, 68, 95, 66, 79, 68, 89],
            // "E_BAD_TOPIC"
            Error::Topic => seq![69u8, 95, 66, 65, 68, 95, 84, 79, 80, 73, 67],
            // "E_BAD_CHANNEL"
            Error::Channel => seq![69u8, 95, 66, 65, 68, 95, 67, 72, 65, 78, 78, 69, 76],
            // "E_BAD_MESSAGE"
            Error::Message => seq![69u8, 95, 66, 65, 68, 95, 77, 69, 83, 83, 65, 71, 69],
            // "E_PUB_FAILED"
            Error::Pub => seq![69u8, 95, 80, 85, 66, 95, 70, 65, 73, 76, 69, 68],
            // "E_MPUB_FAILED"
            Error::Mpub => seq![69u8, 95, 77, 80, 85, 66, 95, 70, 65, 73, 76, 69, 68],
            // "E_DPUB_FAILED"
            Error::Dpub => seq![69u8, 95, 68, 80, 85, 66, 95, 70, 65, 73, 76, 69, 68],
            // "E_FIN_FAILED"
            Error::Fin => seq![69u8, 95, 70, 73, 78, 95, 70, 65, 73, 76, 69, 68],
            // "E_REQ_FAILED"
            Error::Req => seq![69u8, 95, 82, 69, 81, 95, 70, 65, 73, 76, 69, 68],
            // "E_TOUCH_FAILED"
            Error::Touch => seq![69u8, 95, 84, 79, 85, 67, 72, 95, 70, 65, 73, 76, 69, 68],
            // "E_AUTH_FAILED"
            Error::Auth => seq![69u8, 95, 65, 85, 84, 72, 95, 70, 65, 73, 76, 69, 68],
            // "E_UNAUTHORIZED"
            Error::Unauthorized => seq![69u8, 95, 85, 78, 65, 85, 84, 72, 79, 82, 73, 90, 69, 68],
        }
    }

    /// Which kind, if any, a wire string denotes.
    pub open spec fn spec_parse(b: Seq<u8>) -> Option<Error> {
        if b == Error::Invalid.spec_wire() {
            Some(Error::Invalid)
        } else if b == Error::Body.spec_wire() {
            Some(Error::Body)
        } else if b == Error::Topic.spec_wire() {
            Some(Error::Topic)
        } else if b == Error::Channel.spec_wire() {
            Some(Error::Channel)
        } else if b == Error::Message.spec_wire() {
            Some(Error::Message)
        } else if b == Error::Pub.spec_wire() {
            Some(Error::Pub)
        } else if b == Error::Mpub.spec_wire() {
            Some(Error::Mpub)
        } else if b == Error::Dpub.spec_wire() {
            Some(Error::Dpub)
        } else if b == Error::Fin.spec_wire() {
            Some(Error::Fin)
        } else if b == Error::Req.spec_wire() {
            Some(Error::Req)
        } else if b == Error::Touch.spec_wire() {
            Some(Error::Touch)
        } else if b == Error::Auth.spec_wire() {
            Some(Error::Auth)
        } else if b == Error::Unauthorized.spec_wire() {
            Some(Error::Unauthorized)
        } else {
            None
        }
    }

    /// The wire string of this kind.
    pub fn wire_bytes(&self) -> (r: Vec<u8>)
        ensures
            r@ == self.spec_wire(),
    {
        let r: Vec<u8> = match self {
            Error::Invalid => vec![69u8, 95, 73, 78, 86, 65, 76, 73, 68],
            Error::Body => vec![69u8, 95, 66, 65, 68, 95, 66, 79, 68, 89],
            Error::Topic => vec![69u8, 95, 66, 65, 68, 95, 84, 79, 80, 73, 67],
            Error::Channel => vec![69u8, 95, 66, 65, 68, 95, 67, 72, 65, 78, 78, 69, 76],
            Error::Message => vec![69u8, 95, 66, 65, 68, 95, 77, 69, 83, 83, 65, 71, 69],
            Error::Pub => vec![69u8, 95, 80, 85, 66, 95, 70, 65, 73, 76, 69, 68],
            Error::Mpub => vec![69u8, 95, 77, 80, 85, 66, 95, 70, 65, 73, 76, 69, 68],
            Error::Dpub => vec![69u8, 95, 68, 80, 85, 66, 95, 70, 65, 73, 76, 69, 68],
            Error::Fin => vec![69u8, 95, 70, 73, 78, 95, 70, 65, 73, 76, 69, 68],
            Error::Req => vec![69u8, 95, 82, 69, 81, 95, 70, 65, 73, 76, 69, 68],
            Error::Touch => vec![69u8, 95, 84, 79, 85, 67, 72, 95, 70, 65, 73, 76, 69, 68],
            Error::Auth => vec![69u8, 95, 65, 85, 84, 72, 95, 70, 65, 73, 76, 69, 68],
            Error::Unauthorized => vec![69u8, 95, 85, 78, 65, 85, 84, 72, 79, 82, 73, 90, 69, 68],
        };
        proof {
            assert(r@ =~= self.spec_wire());
        }
        r
    }

    /// Parse a wire error string; an unknown string is a decode error.
    pub fn from_wire(buf: &[u8]) -> (r: Result<Error, NsqError>)
        ensures
            r matches Ok(e) ==> Error::spec_parse(buf@) == Some(e),
            r is Err <==> Error::spec_parse(buf@) is None,
            r matches Err(n) ==> n is Decode,
    {
        if crate::wire::slice_eq(buf, Error::Invalid.wire_bytes().as_slice()) {
            Ok(Error::Invalid)
        } else if crate::wire::slice_eq(buf, Error::Body.wire_bytes().as_slice()) {
            Ok(Error::Body)
        } else if crate::wire::slice_eq(buf, Error::Topic.wire_bytes().as_slice()) {
            Ok(Error::Topic)
        } else if crate::wire::slice_eq(buf, Error::Channel.wire_bytes().as_slice()) {
            Ok(Error::Channel)
        } else if crate::wire::slice_eq(buf, Error::Message.wire_bytes().as_slice()) {
            Ok(Error::Message)
        } else if crate::wire::slice_eq(buf, Error::Pub.wire_bytes().as_slice()) {
            Ok(Error::Pub)
        } else if crate::wire::slice_eq(buf, Error::Mpub.wire_bytes().as_slice()) {
            Ok(Error::Mpub)
        } else if crate::wire::slice_eq(buf, Error::Dpub.wire_bytes().as_slice()) {
            Ok(Error::Dpub)
        } else if crate::wire::slice_eq(buf, Error::Fin.wire_bytes().as_slice()) {
            Ok(Error::Fin)
        } else if crate::wire::slice_eq(buf, Error::Req.wire_bytes().as_slice()) {
            Ok(Error::Req)
        } else if crate::wire::slice_eq(buf, Error::Touch.wire_bytes().as_slice()) {
            Ok(Error::Touch)
        } else if crate::wire::slice_eq(buf, Error::Auth.wire_bytes().as_slice()) {
            Ok(Error::Auth)
        } else if crate::wire::slice_eq(buf, Error::Unauthorized.wire_bytes().as_slice()) {
            Ok(Error::Unauthorized)
        } else {
            Err(NsqError::Decode(String::from_str("unknown error string")))
        }
    }

    /// Whether this kind ends the connection.
    pub open spec fn spec_is_fatal(self) -> bool {
        self is Auth || self is Unauthorized
    }

    /// `E_AUTH_FAILED` and `E_UNAUTHORIZED` are fatal; every other kind is
    /// command-local.
    pub fn is_fatal(&self) -> (r: bool)
        ensures
            r == self.spec_is_fatal(),
    {
        match self {
            Error::Auth => true,
            Error::Unauthorized => true,
            _ => false,
        }
    }

    /// Parsing the wire string of a kind recovers that kind.
    pub proof fn lemma_wire_round_trip(e: Error)
        ensures
            Error::spec_parse(e.spec_wire()) == Some(e),
    {
        lemma_wire_injective();
    }
}

/// Distinct kinds have distinct wire strings.
pub proof fn lemma_wire_injective()
    ensures
        forall|e1: Error, e2: Error| e1 != e2 ==> e1.spec_wire() != e2.spec_wire(),
{
    assert forall|e1: Error, e2: Error| e1 != e2 implies e1.spec_wire() != e2.spec_wire() by {
        let b1 = e1.spec_wire();
        let b2 = e2.spec_wire();
        if b1 == b2 {
            assert(b1.len() == b2.len());
            assert(b1[2] == b2[2]);
            assert(b1[6] == b2[6]);
        }
    }
}

/// The sum error type of the library.
#[derive(Debug)]
pub enum NsqError {
    /// A transport failure, with its message. Always fatal.
    Io(String),
    /// A failure to parse a JSON body, with its message. Always fatal.
    Json(String),
    /// A wire `E_*` error kind.
    Protocol(Error),
    /// A malformed frame or an unknown wire string, with a reason. Always fatal.
    Decode(String),
    /// A feature the server asks for that this side cannot satisfy. Always fatal.
    ConfigMismatch(String),
}

impl NsqError {
    /// Whether this error ends the connection.
    pub open spec fn spec_is_fatal(self) -> bool {
        match self {
            NsqError::Protocol(e) => e.spec_is_fatal(),
            _ => true,
        }
    }

    /// Every error is fatal except a command-local protocol kind.
    pub fn is_fatal(&self) -> (r: bool)
        ensures
            r == self.spec_is_fatal(),
    {
        match self {
            NsqError::Protocol(e) => e.is_fatal(),
            _ => true,
        }
    }
}

/// The result type of every fallible operation of the library.
pub type NsqResult<T> = Result<T, NsqError>;

} // verus!
