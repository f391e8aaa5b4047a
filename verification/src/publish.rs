//! The producer path: one command goes out, one frame comes back.

use vstd::prelude::*;
use vstd::string::StringExecFns;
use crate::error::NsqError;
use crate::frame::Frame;
use crate::response::Response;

verus! {

/// Map the single frame read after a publication: any response is the
/// outcome (`OK` plain success, a JSON body success with payload), a wire
/// error becomes the matching protocol error, and a message frame is a
/// protocol violation — the producer path never expects one.
pub fn classify_publish_response(f: Frame) -> (r: Result<Response, NsqError>)
    ensures
        f matches Frame::Response(resp) ==> r matches Ok(v) && v == resp,
        f matches Frame::Error(e) ==> r matches Err(n) && n == NsqError::Protocol(e),
        f is Msg ==> (r matches Err(n) && n is Decode),
{
    match f {
        Frame::Response(resp) => Ok(resp),
        Frame::Error(e) => Err(NsqError::Protocol(e)),
        Frame::Msg(_) => Err(
            NsqError::Decode(String::from_str("message frame on the producer path")),
        ),
    }
}

} // verus!
