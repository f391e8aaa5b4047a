//! The framed reader: raw byte chunks go in, whole frames come out, strictly
//! in wire order. A frame is yielded only once all of its bytes are here.

use vstd::prelude::*;
use vstd::string::StringExecFns;
use crate::error::NsqError;
use crate::frame::{spec_frame_decodes, spec_frame_fails, Frame};
use crate::wire::{read_be_u32, spec_be_val, lemma_be_val4};

verus! {

/// The declared size field of a buffered byte sequence: the count of bytes
/// that follow it, frame type included.
pub open spec fn spec_size(b: Seq<u8>) -> int {
    spec_be_val(b.subrange(0, 4))
}

/// A whole frame sits at the front of the buffer.
pub open spec fn spec_frame_ready(b: Seq<u8>) -> bool {
    b.len() >= 4 && spec_size(b) >= 4 && b.len() >= 4 + spec_size(b)
}

/// The size field itself is impossible: it cannot even cover the frame type.
pub open spec fn spec_frame_malformed(b: Seq<u8>) -> bool {
    b.len() >= 4 && spec_size(b) < 4
}

/// The byte string of the frame at the front of the buffer.
pub open spec fn spec_front_frame(b: Seq<u8>) -> Seq<u8> {
    b.subrange(0, 4 + spec_size(b))
}

/// The buffer once the front frame is consumed.
pub open spec fn spec_rest(b: Seq<u8>) -> Seq<u8> {
    b.skip(4 + spec_size(b))
}

/// The framed reader over a byte transport: an accumulation buffer and a
/// single-shot termination flag.
pub struct NsqIO {
    buf: Vec<u8>,
    done: bool,
}

impl NsqIO {
    /// The bytes read from the transport and not yet consumed.
    pub closed spec fn buffer(&self) -> Seq<u8> {
        self.buf@
    }

    /// Whether the reader has ended its sequence.
    pub closed spec fn terminated(&self) -> bool {
        self.done
    }

    /// An empty reader.
    pub fn new() -> (r: NsqIO)
        ensures
            r.buffer() == Seq::<u8>::empty(),
            !r.terminated(),
    {
        NsqIO { buf: Vec::new(), done: false }
    }

    /// Clear the termination flag so the same transport can be read again
    /// across handshake steps.
    pub fn reset(&mut self)
        ensures
            final(self).buffer() == old(self).buffer(),
            !final(self).terminated(),
    {
        self.done = false;
    }

    /// Accumulate a chunk read from the transport.
    pub fn feed(&mut self, chunk: &[u8])
        ensures
            final(self).buffer() == old(self).buffer() + chunk@,
            final(self).terminated() == old(self).terminated(),
    {
        crate::wire::push_slice(&mut self.buf, chunk);
    }

    /// Record that the transport returned no bytes: the end of the stream is
    /// reported once, then the sequence terminates.
    pub fn on_eof(&mut self) -> (r: Option<NsqError>)
        ensures
            final(self).buffer() == old(self).buffer(),
            final(self).terminated(),
            r is Some <==> !old(self).terminated(),
            r matches Some(n) ==> n is Io,
    {
        if self.done {
            None
        } else {
            self.done = true;
            Some(NsqError::Io(String::from_str("received 0 bytes")))
        }
    }

    /// Yield the frame at the front of the buffer, if it is all here.
    ///
    /// A partial frame is not yielded until complete. An impossible size
    /// field or an undecodable frame is a fatal decode error and terminates
    /// the sequence. Exactly the bytes of the yielded frame are consumed.
    pub fn next_frame(&mut self) -> (r: Option<Result<Frame, NsqError>>)
        ensures
            old(self).terminated() ==> r is None && *final(self) == *old(self),
            !old(self).terminated() ==> {
                let b = old(self).buffer();
                if spec_frame_malformed(b) {
                    &&& r matches Some(Err(n)) && n is Decode
                    &&& final(self).buffer() == b
                    &&& final(self).terminated()
                } else if !spec_frame_ready(b) {
                    &&& r is None
                    &&& *final(self) == *old(self)
                } else {
                    &&& final(self).buffer() == spec_rest(b)
                    &&& (r matches Some(Ok(f)) ==> spec_frame_decodes(spec_front_frame(b), f)
                        && !final(self).terminated())
                    &&& (r matches Some(Err(n)) ==> spec_frame_fails(spec_front_frame(b))
                        && n is Decode && final(self).terminated())
                    &&& (r is Some)
                    &&& (r matches Some(Err(n)) <==> spec_frame_fails(spec_front_frame(b)))
                }
            },
    {
        if self.done {
            return None;
        }
        if self.buf.len() < 4 {
            return None;
        }
        let size = read_be_u32(self.buf.as_slice(), 0);
        proof {
            lemma_be_val4(self.buf@.subrange(0, 4));
        }
        if size < 4 {
            self.done = true;
            return Some(Err(NsqError::Decode(String::from_str("frame size below its minimum"))));
        }
        let total64: u64 = size as u64 + 4;
        if (self.buf.len() as u64) < total64 {
            return None;
        }
        let total: usize = total64 as usize;
        let parsed = Frame::parse(vstd::slice::slice_subrange(self.buf.as_slice(), 0, total));
        proof {
            assert(self.buf@.subrange(0, total as int) =~= spec_front_frame(old(self).buffer()));
        }
        let rest = self.buf.split_off(total);
        self.buf = rest;
        match parsed {
            Ok(f) => Some(Ok(f)),
            Err(e) => {
                self.done = true;
                Some(Err(e))
            },
        }
    }
}

/// One valid frame in the buffer is yielded whole: the front frame is the
/// entire buffer, nothing remains after it, and its payload is exactly
/// `size - 4` bytes long.
pub proof fn lemma_valid_frame_is_whole(b: Seq<u8>, f: Frame)
    requires
        spec_frame_decodes(b, f),
    ensures
        spec_frame_ready(b),
        !spec_frame_malformed(b),
        spec_front_frame(b) == b,
        spec_rest(b) == Seq::<u8>::empty(),
        b.skip(8).len() == spec_size(b) - 4,
{
    assert(spec_front_frame(b) =~= b);
    assert(spec_rest(b) =~= Seq::<u8>::empty());
}

} // verus!
