//! The consumer path: subscription, the flow-control credit, the set of
//! in-flight message ids, and the dispatch of inbound frames.

use vstd::prelude::*;
use vstd::string::{StrSliceExecFns, StringExecFns};
use vstd::utf8::{encode_utf8, encode_utf8_decode_utf8};
use crate::codec::{spec_fin, spec_nop, spec_req, spec_touch};
use crate::error::{Error, NsqError};
use crate::frame::Frame;
use crate::msg::Msg;
use crate::response::Response;
use crate::wire::{push_dec_u64, push_slice, slice_eq, spec_dec_u64};

verus! {

/// Clip the requested flow-control credit to what the server accepts.
pub fn clip_rdy(requested: u32, max_rdy_count: u32) -> (r: u32)
    ensures
        r == if requested > max_rdy_count {
            max_rdy_count
        } else {
            requested
        },
{
    if requested > max_rdy_count {
        max_rdy_count
    } else {
        requested
    }
}

/// Map the single frame read after a subscription request: only `OK` is
/// accepted.
pub fn classify_sub_response(f: Frame) -> (r: Result<(), NsqError>)
    ensures
        f matches Frame::Response(Response::Okay) <==> r is Ok,
        f matches Frame::Error(e) ==> r matches Err(n) && n == NsqError::Protocol(e),
{
    match f {
        Frame::Response(Response::Okay) => Ok(()),
        Frame::Error(e) => Err(NsqError::Protocol(e)),
        _ => Err(NsqError::Decode(String::from_str("subscription not acknowledged"))),
    }
}

/// The set of message ids delivered to the handler and not yet settled by an
/// acknowledgement or re-queue.
pub struct InflightTracker {
    ids: Vec<String>,
}

impl InflightTracker {
    /// The in-flight ids, in arrival order.
    pub closed spec fn view(&self) -> Seq<Seq<char>> {
        self.ids@.map_values(|s: String| s@)
    }

    /// No id is held twice.
    pub closed spec fn inv(&self) -> bool {
        forall|i: int, j: int| 0 <= i < j < self@.len() ==> self@[i] != self@[j]
    }

    /// An empty tracker.
    pub fn new() -> (r: InflightTracker)
        ensures
            r@ == Seq::<Seq<char>>::empty(),
            r.inv(),
    {
        let r = InflightTracker { ids: Vec::new() };
        proof {
            assert(r@ =~= Seq::<Seq<char>>::empty());
        }
        r
    }

    /// How many messages are in flight.
    pub fn len(&self) -> (r: usize)
        ensures
            r == self@.len(),
    {
        self.ids.len()
    }

    /// Whether nothing is in flight.
    pub fn is_empty(&self) -> (r: bool)
        ensures
            r == (self@.len() == 0),
    {
        self.ids.len() == 0
    }

    /// Whether `id` is in flight.
    pub fn contains(&self, id: &str) -> (r: bool)
        ensures
            r == self@.contains(id@),
    {
        let mut i: usize = 0;
        while i < self.ids.len()
            invariant
                i <= self.ids@.len(),
                self@.len() == self.ids@.len(),
                forall|j: int| 0 <= j < i ==> self@[j] != id@,
            decreases self.ids@.len() - i,
        {
            if slice_eq(self.ids[i].as_str().as_bytes(), id.as_bytes()) {
                proof {
                    encode_utf8_decode_utf8(self.ids@[i as int]@);
                    encode_utf8_decode_utf8(id@);
                    assert(self@[i as int] == id@);
                }
                return true;
            }
            proof {
                if self@[i as int] == id@ {
                    assert(encode_utf8(self.ids@[i as int]@) == encode_utf8(id@));
                }
            }
            i = i + 1;
        }
        proof {
            if self@.contains(id@) {
                let k = choose|k: int| 0 <= k < self@.len() && self@[k] == id@;
                assert(false);
            }
        }
        false
    }

    /// Record a delivered message id. A redelivered id is kept once.
    pub fn insert(&mut self, id: String)
        requires
            old(self).inv(),
        ensures
            final(self).inv(),
            old(self)@.contains(id@) ==> final(self)@ == old(self)@,
            !old(self)@.contains(id@) ==> final(self)@ == old(self)@.push(id@),
            final(self)@.contains(id@),
    {
        if !self.contains(id.as_str()) {
            self.ids.push(id);
            proof {
                assert(self@ =~= old(self)@.push(self.ids@.last()@));
                assert(self@.contains(id@)) by {
                    assert(self@[self@.len() - 1] == id@);
                }
            }
        }
    }

    /// Settle an id: it is no longer in flight. An id not in flight leaves
    /// the tracker unchanged.
    pub fn remove(&mut self, id: &str)
        requires
            old(self).inv(),
        ensures
            final(self).inv(),
            !final(self)@.contains(id@),
            forall|x: Seq<char>| x != id@ ==> final(self)@.contains(x) == old(self)@.contains(x),
            old(self)@.contains(id@) ==> final(self)@.len() == old(self)@.len() - 1,
            !old(self)@.contains(id@) ==> final(self)@ == old(self)@,
    {
        let ghost pre = self@;
        let mut i: usize = 0;
        while i < self.ids.len()
            invariant
                i <= self.ids@.len(),
                self@.len() == self.ids@.len(),
                self@ == pre,
                old(self).inv(),
                self@ == old(self)@,
                forall|j: int| 0 <= j < i ==> self@[j] != id@,
            decreases self.ids@.len() - i,
        {
            if slice_eq(self.ids[i].as_str().as_bytes(), id.as_bytes()) {
                proof {
                    encode_utf8_decode_utf8(self.ids@[i as int]@);
                    encode_utf8_decode_utf8(id@);
                    assert(self@[i as int] == id@);
                }
                self.ids.remove(i);
                proof {
                    assert(self@ =~= pre.subrange(0, i as int) + pre.skip(i + 1));
                    assert forall|x: Seq<char>| x != id@ implies self@.contains(x)
                        == old(self)@.contains(x) by {
                        lemma_remove_keeps_others(pre, i as int, x);
                    }
                    if self@.contains(id@) {
                        let k = choose|k: int| 0 <= k < self@.len() && self@[k] == id@;
                        if k < i {
                            assert(pre[k] == id@);
                        } else {
                            assert(pre[k + 1] == id@);
                            assert(pre[i as int] == id@);
                        }
                        assert(false);
                    }
                    assert forall|a: int, b: int|
                        0 <= a < b < self@.len() implies self@[a] != self@[b] by {
                        let pa = if a < i {
                            a
                        } else {
                            a + 1
                        };
                        let pb = if b < i {
                            b
                        } else {
                            b + 1
                        };
                        assert(self@[a] == pre[pa]);
                        assert(self@[b] == pre[pb]);
                    }
                }
                return ;
            }
            proof {
                if self@[i as int] == id@ {
                    assert(encode_utf8(self.ids@[i as int]@) == encode_utf8(id@));
                }
            }
            i = i + 1;
        }
        proof {
            if self@.contains(id@) {
                let k = choose|k: int| 0 <= k < self@.len() && self@[k] == id@;
                assert(false);
            }
        }
    }
}

/// An element other than the removed one keeps its membership.
proof fn lemma_remove_keeps_others(pre: Seq<Seq<char>>, i: int, x: Seq<char>)
    requires
        0 <= i < pre.len(),
        x != pre[i],
    ensures
        (pre.subrange(0, i) + pre.skip(i + 1)).contains(x) == pre.contains(x),
{
    let post = pre.subrange(0, i) + pre.skip(i + 1);
    if pre.contains(x) {
        let k = choose|k: int| 0 <= k < pre.len() && pre[k] == x;
        if k < i {
            assert(post[k] == x);
        } else {
            assert(post[k - 1] == x);
        }
        assert(post.contains(x));
    }
    if post.contains(x) {
        let k = choose|k: int| 0 <= k < post.len() && post[k] == x;
        if k < i {
            assert(pre[k] == x);
        } else {
            assert(pre[k + 1] == x);
        }
        assert(pre.contains(x));
    }
}

/// What the handler answers for one delivered message.
pub enum AckCmd {
    /// Acknowledge the message.
    Fin,
    /// Re-queue the message after this many milliseconds.
    Req(u32),
    /// Extend the message's in-flight timeout.
    Touch,
}

/// What the dispatch loop does with one inbound frame.
pub enum DispatchAction {
    /// Write these bytes; nothing reaches the handler.
    Reply(Vec<u8>),
    /// Hand this message to the handler.
    Deliver(Msg),
    /// Report this command-local error and keep going.
    Surface(Error),
    /// Stop the loop with this error.
    Fatal(NsqError),
    /// The acknowledgement of a command this loop issued; nothing to do.
    Ignore,
}

/// The dispatch loop's state: the in-flight ids and how many plain `OK`
/// acknowledgements the loop still expects for its own extension requests.
pub struct Dispatcher {
    inflight: InflightTracker,
    pending_oks: u64,
}

impl Dispatcher {
    /// The in-flight ids.
    pub closed spec fn inflight(&self) -> Seq<Seq<char>> {
        self.inflight@
    }

    /// How many `OK` frames are owed to extension requests.
    pub closed spec fn pending_oks(&self) -> u64 {
        self.pending_oks
    }

    /// The tracker's invariant.
    pub closed spec fn inv(&self) -> bool {
        self.inflight.inv()
    }

    /// A fresh dispatcher: nothing in flight, nothing owed.
    pub fn new() -> (r: Dispatcher)
        ensures
            r.inv(),
            r.inflight() == Seq::<Seq<char>>::empty(),
            r.pending_oks() == 0,
    {
        Dispatcher { inflight: InflightTracker::new(), pending_oks: 0 }
    }

    /// Whether no message is in flight.
    pub fn inflight_is_empty(&self) -> (r: bool)
        ensures
            r == (self.inflight().len() == 0),
    {
        self.inflight.is_empty()
    }

    /// How many messages are in flight.
    pub fn inflight_len(&self) -> (r: usize)
        ensures
            r == self.inflight().len(),
    {
        self.inflight.len()
    }

    /// How many `OK` frames are owed to extension requests.
    pub fn pending_ok_count(&self) -> (r: u64)
        ensures
            r == self.pending_oks(),
    {
        self.pending_oks
    }

    /// Route one inbound frame: a heartbeat is answered with `NOP`; an `OK`
    /// settles an extension the loop issued and is otherwise a protocol
    /// violation; a fatal wire error stops the loop while any other is
    /// surfaced; a message is recorded in flight and handed to the handler.
    pub fn on_frame(&mut self, f: Frame) -> (r: DispatchAction)
        requires
            old(self).inv(),
        ensures
            final(self).inv(),
            f matches Frame::Response(Response::HeartBeat) ==> (r matches DispatchAction::Reply(b)
                && b@ == spec_nop()) && *final(self) == *old(self),
            f matches Frame::Response(Response::Okay) ==> (if old(self).pending_oks() > 0 {
                r is Ignore && final(self).pending_oks() == old(self).pending_oks() - 1
                    && final(self).inflight() == old(self).inflight()
            } else {
                (r matches DispatchAction::Fatal(n) && n is Decode) && *final(self) == *old(self)
            }),
            f matches Frame::Response(Response::Json(s)) ==> (r matches DispatchAction::Fatal(n)
                && n is Decode) && *final(self) == *old(self),
            f matches Frame::Error(e) ==> *final(self) == *old(self) && (if e.spec_is_fatal() {
                r matches DispatchAction::Fatal(n) && n == NsqError::Protocol(e)
            } else {
                r matches DispatchAction::Surface(k) && k == e
            }),
            f matches Frame::Msg(m) ==> {
                &&& r matches DispatchAction::Deliver(d) && d == m
                &&& final(self).inflight().contains(m.id@)
                &&& (old(self).inflight().contains(m.id@) ==> final(self).inflight() == old(
                    self,
                ).inflight())
                &&& (!old(self).inflight().contains(m.id@) ==> final(self).inflight() == old(
                    self,
                ).inflight().push(m.id@))
                &&& final(self).pending_oks() == old(self).pending_oks()
            },
    {
        match f {
            Frame::Response(Response::HeartBeat) => {
                let nop: Vec<u8> = vec![78u8, 79, 80, 10];
                proof {
                    assert(nop@ =~= spec_nop());
                }
                DispatchAction::Reply(nop)
            },
            Frame::Response(Response::Okay) => {
                if self.pending_oks > 0 {
                    self.pending_oks = self.pending_oks - 1;
                    DispatchAction::Ignore
                } else {
                    DispatchAction::Fatal(
                        NsqError::Decode(String::from_str("response no command asked for")),
                    )
                }
            },
            Frame::Response(Response::Json(_)) => DispatchAction::Fatal(
                NsqError::Decode(String::from_str("response no command asked for")),
            ),
            Frame::Error(e) => {
                if e.is_fatal() {
                    DispatchAction::Fatal(NsqError::Protocol(e))
                } else {
                    DispatchAction::Surface(e)
                }
            },
            Frame::Msg(m) => {
                let id = m.id.clone();
                proof {
                    assert(id@ == m.id@);
                }
                self.inflight.insert(id);
                DispatchAction::Deliver(m)
            },
        }
    }

    /// Turn the handler's answer for a delivered message into the bytes to
    /// write. An acknowledgement or re-queue settles the id; an extension
    /// keeps it in flight and makes the loop expect one more `OK`. An id
    /// that is not in flight is refused: the loop never settles or extends a
    /// message it has not seen.
    pub fn on_handler_cmd(&mut self, id: &str, cmd: AckCmd) -> (r: Result<Vec<u8>, NsqError>)
        requires
            old(self).inv(),
            old(self).pending_oks() < 0xFFFF_FFFF_FFFF_FFFF,
        ensures
            final(self).inv(),
            !old(self).inflight().contains(id@) ==> r is Err && *final(self) == *old(self),
            old(self).inflight().contains(id@) ==> match cmd {
                AckCmd::Fin => {
                    &&& r matches Ok(b) && b@ == spec_fin(encode_utf8(id@))
                    &&& !final(self).inflight().contains(id@)
                    &&& final(self).inflight().len() == old(self).inflight().len() - 1
                    &&& (forall|x: Seq<char>|
                        x != id@ ==> final(self).inflight().contains(x) == old(
                            self,
                        ).inflight().contains(x))
                    &&& final(self).pending_oks() == old(self).pending_oks()
                },
                AckCmd::Req(t) => {
                    &&& r matches Ok(b) && b@ == spec_req(encode_utf8(id@), t)
                    &&& !final(self).inflight().contains(id@)
                    &&& final(self).inflight().len() == old(self).inflight().len() - 1
                    &&& (forall|x: Seq<char>|
                        x != id@ ==> final(self).inflight().contains(x) == old(
                            self,
                        ).inflight().contains(x))
                    &&& final(self).pending_oks() == old(self).pending_oks()
                },
                AckCmd::Touch => {
                    &&& r matches Ok(b) && b@ == spec_touch(encode_utf8(id@))
                    &&& final(self).inflight() == old(self).inflight()
                    &&& final(self).pending_oks() == old(self).pending_oks() + 1
                },
            },
    {
        if !self.inflight.contains(id) {
            return Err(NsqError::Decode(String::from_str("message id is not in flight")));
        }
        match cmd {
            AckCmd::Fin => {
                self.inflight.remove(id);
                let mut b: Vec<u8> = vec![70u8, 73, 78, 32];
                assert(b@ =~= seq![70u8, 73, 78, 32]);
                push_slice(&mut b, id.as_bytes());
                b.push(10);
                assert(b@ =~= spec_fin(encode_utf8(id@)));
                Ok(b)
            },
            AckCmd::Req(t) => {
                self.inflight.remove(id);
                let mut b: Vec<u8> = vec![82u8, 69, 81, 32];
                assert(b@ =~= seq![82u8, 69, 81, 32]);
                push_slice(&mut b, id.as_bytes());
                b.push(32);
                push_dec_u64(&mut b, t as u64);
                b.push(10);
                assert(b@ =~= spec_req(encode_utf8(id@), t));
                Ok(b)
            },
            AckCmd::Touch => {
                self.pending_oks = self.pending_oks + 1;
                let mut b: Vec<u8> = vec![84u8, 79, 85, 67, 72, 32];
                assert(b@ =~= seq![84u8, 79, 85, 67, 72, 32]);
                push_slice(&mut b, id.as_bytes());
                b.push(10);
                assert(b@ =~= spec_touch(encode_utf8(id@)));
                Ok(b)
            },
        }
    }
}

} // verus!
