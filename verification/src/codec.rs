//! Wire codec: every protocol command with its exact byte encoding.
//!
//! Each command type views as the byte string it encodes to; `encode`
//! returns exactly that byte string. The `spec_*` functions are the
//! authoritative layouts: an ASCII header, then the command's fields,
//! length-prefixed or newline-terminated as the protocol fixes.

use vstd::prelude::*;
use vstd::string::StringSliceAdditionalSpecFns;
use vstd::string::StrSliceExecFns;
use crate::wire::{
    spec_be_u32, spec_dec_u64, push_be_u32, push_dec_u64, push_slice,
};

verus! {

/// A command that has a canonical byte encoding: its view.
pub trait Encoder: View<V = Seq<u8>> {
    /// Field bounds that the machine forces (lengths must fit their
    /// 32-bit wire fields).
    spec fn wf(&self) -> bool;

    /// Produce the canonical byte encoding.
    fn encode(&self) -> (r: Vec<u8>)
        requires
            self.wf(),
        ensures
            r@ == self@,
    ;
}

/// A value that can be read back from a frame payload.
pub trait Decoder: Sized {
    type Error;

    /// The payloads that decode to `v`.
    spec fn spec_decodes(buf: Seq<u8>, v: Self) -> bool;

    /// The payloads that are rejected.
    spec fn spec_fails(buf: Seq<u8>) -> bool;

    /// Decode a frame payload.
    fn decode(buf: &[u8]) -> (r: Result<Self, Self::Error>)
        ensures
            r matches Ok(v) ==> Self::spec_decodes(buf@, v),
            r is Err <==> Self::spec_fails(buf@),
    ;
}

/// `"  V2"`.
pub open spec fn spec_magic() -> Seq<u8> {
    seq![32u8, 32, 86, 50]
}

/// `"NOP\n"`.
pub open spec fn spec_nop() -> Seq<u8> {
    seq![78u8, 79, 80, 10]
}

/// `"CLS\n"`.
pub open spec fn spec_cls() -> Seq<u8> {
    seq![67u8, 76, 83, 10]
}

/// `"IDENTIFY\n"` + length-prefixed configuration JSON.
pub open spec fn spec_identify(cfg: Seq<u8>) -> Seq<u8> {
    seq![73u8, 68, 69, 78, 84, 73, 70, 89, 10] + spec_be_u32(cfg.len() as u32) + cfg
}

/// `"AUTH\n"` + length-prefixed token.
pub open spec fn spec_auth(token: Seq<u8>) -> Seq<u8> {
    seq![65u8, 85, 84, 72, 10] + spec_be_u32(token.len() as u32) + token
}

/// `"SUB "` + topic + `" "` + channel + `"\n"`.
pub open spec fn spec_sub(topic: Seq<u8>, channel: Seq<u8>) -> Seq<u8> {
    seq![83u8, 85, 66, 32] + topic + seq![32u8] + channel + seq![10u8]
}

/// `"RDY "` + count + `"\n"`.
pub open spec fn spec_rdy(count: Seq<u8>) -> Seq<u8> {
    seq![82u8, 68, 89, 32] + count + seq![10u8]
}

/// `"PUB "` + topic + `"\n"` + length-prefixed body.
pub open spec fn spec_pub(topic: Seq<u8>, body: Seq<u8>) -> Seq<u8> {
    seq![80u8, 85, 66, 32] + topic + seq![10u8] + spec_be_u32(body.len() as u32) + body
}

/// The total byte count of the length-prefixed bodies of an `MPUB`.
pub open spec fn spec_mpub_total(bodies: Seq<Seq<u8>>) -> int
    decreases bodies.len(),
{
    if bodies.len() == 0 {
        0
    } else {
        spec_mpub_total(bodies.drop_last()) + 4 + bodies.last().len()
    }
}

/// The concatenation of the length-prefixed bodies of an `MPUB`.
pub open spec fn spec_mpub_items(bodies: Seq<Seq<u8>>) -> Seq<u8>
    decreases bodies.len(),
{
    if bodies.len() == 0 {
        Seq::<u8>::empty()
    } else {
        spec_mpub_items(bodies.drop_last()) + spec_be_u32(bodies.last().len() as u32)
            + bodies.last()
    }
}

/// `"MPUB "` + topic + `"\n"` + total length + body count + the bodies.
pub open spec fn spec_mpub(topic: Seq<u8>, bodies: Seq<Seq<u8>>) -> Seq<u8> {
    seq![77u8, 80, 85, 66, 32] + topic + seq![10u8] + spec_be_u32(spec_mpub_total(bodies) as u32)
        + spec_be_u32(bodies.len() as u32) + spec_mpub_items(bodies)
}

/// `"DPUB "` + topic + `" "` + decimal delay + `"\n"` + length-prefixed body.
pub open spec fn spec_dpub(topic: Seq<u8>, delay_ms: u32, body: Seq<u8>) -> Seq<u8> {
    seq![68u8, 80, 85, 66, 32] + topic + seq![32u8] + spec_dec_u64(delay_ms as nat) + seq![10u8]
        + spec_be_u32(body.len() as u32) + body
}

/// `"TOUCH "` + id + `"\n"`.
pub open spec fn spec_touch(id: Seq<u8>) -> Seq<u8> {
    seq![84u8, 79, 85, 67, 72, 32] + id + seq![10u8]
}

/// `"FIN "` + id + `"\n"`.
pub open spec fn spec_fin(id: Seq<u8>) -> Seq<u8> {
    seq![70u8, 73, 78, 32] + id + seq![10u8]
}

/// `"REQ "` + id + `" "` + decimal timeout + `"\n"`.
pub open spec fn spec_req(id: Seq<u8>, timeout_ms: u32) -> Seq<u8> {
    seq![82u8, 69, 81, 32] + id + seq![32u8] + spec_dec_u64(timeout_ms as nat) + seq![10u8]
}

/// The protocol magic, first bytes on every connection.
pub struct Magic;

impl View for Magic {
    type V = Seq<u8>;

    open spec fn view(&self) -> Seq<u8> {
        spec_magic()
    }
}

impl Encoder for Magic {
    open spec fn wf(&self) -> bool {
        true
    }

    fn encode(&self) -> (r: Vec<u8>) {
        let r: Vec<u8> = vec![32u8, 32, 86, 50];
        proof {
            assert(r@ =~= spec_magic());
        }
        r
    }
}

/// The liveness reply to a heartbeat.
pub struct Nop;

impl View for Nop {
    type V = Seq<u8>;

    open spec fn view(&self) -> Seq<u8> {
        spec_nop()
    }
}

impl Encoder for Nop {
    open spec fn wf(&self) -> bool {
        true
    }

    fn encode(&self) -> (r: Vec<u8>) {
        let r: Vec<u8> = vec![78u8, 79, 80, 10];
        proof {
            assert(r@ =~= spec_nop());
        }
        r
    }
}

/// The clean-close request.
pub struct Cls;

impl View for Cls {
    type V = Seq<u8>;

    open spec fn view(&self) -> Seq<u8> {
        spec_cls()
    }
}

impl Encoder for Cls {
    open spec fn wf(&self) -> bool {
        true
    }

    fn encode(&self) -> (r: Vec<u8>) {
        let r: Vec<u8> = vec![67u8, 76, 83, 10];
        proof {
            assert(r@ =~= spec_cls());
        }
        r
    }
}

/// The feature-negotiation request, carrying the configuration JSON.
pub struct Identify {
    cfg: Vec<u8>,
}

impl Identify {
    /// Build from the already-rendered configuration JSON.
    pub fn with_config(config: &str) -> (r: Self)
        requires
            config.spec_bytes().len() <= 0xFFFF_FFFF,
        ensures
            r@ == spec_identify(config.spec_bytes()),
            r.wf(),
    {
        Identify { cfg: config.as_bytes_vec() }
    }
}

impl View for Identify {
    type V = Seq<u8>;

    closed spec fn view(&self) -> Seq<u8> {
        spec_identify(self.cfg@)
    }
}

impl Encoder for Identify {
    closed spec fn wf(&self) -> bool {
        self.cfg@.len() <= 0xFFFF_FFFF
    }

    fn encode(&self) -> (r: Vec<u8>) {
        let mut r: Vec<u8> = vec![73u8, 68, 69, 78, 84, 73, 70, 89, 10];
        assert(r@ =~= seq![73u8, 68, 69, 78, 84, 73, 70, 89, 10]);
        push_be_u32(&mut r, self.cfg.len() as u32);
        push_slice(&mut r, self.cfg.as_slice());
        assert(r@ =~= self@);
        r
    }
}

/// The authentication request, carrying the token.
pub struct Auth {
    token: Vec<u8>,
}

impl Auth {
    /// Build from the token.
    pub fn with_auth(auth: &str) -> (r: Self)
        requires
            auth.spec_bytes().len() <= 0xFFFF_FFFF,
        ensures
            r@ == spec_auth(auth.spec_bytes()),
            r.wf(),
    {
        Auth { token: auth.as_bytes_vec() }
    }
}

impl View for Auth {
    type V = Seq<u8>;

    closed spec fn view(&self) -> Seq<u8> {
        spec_auth(self.token@)
    }
}

impl Encoder for Auth {
    closed spec fn wf(&self) -> bool {
        self.token@.len() <= 0xFFFF_FFFF
    }

    fn encode(&self) -> (r: Vec<u8>) {
        let mut r: Vec<u8> = vec![65u8, 85, 84, 72, 10];
        assert(r@ =~= seq![65u8, 85, 84, 72, 10]);
        push_be_u32(&mut r, self.token.len() as u32);
        push_slice(&mut r, self.token.as_slice());
        assert(r@ =~= self@);
        r
    }
}

/// The subscription request for a topic and channel.
pub struct Sub {
    topic: Vec<u8>,
    channel: Vec<u8>,
}

impl Sub {
    /// Build from a channel and a topic.
    pub fn with_channel_topic(channel: &str, topic: &str) -> (r: Self)
        ensures
            r@ == spec_sub(topic.spec_bytes(), channel.spec_bytes()),
            r.wf(),
    {
        Sub { topic: topic.as_bytes_vec(), channel: channel.as_bytes_vec() }
    }
}

impl View for Sub {
    type V = Seq<u8>;

    closed spec fn view(&self) -> Seq<u8> {
        spec_sub(self.topic@, self.channel@)
    }
}

impl Encoder for Sub {
    closed spec fn wf(&self) -> bool {
        true
    }

    fn encode(&self) -> (r: Vec<u8>) {
        let mut r: Vec<u8> = vec![83u8, 85, 66, 32];
        assert(r@ =~= seq![83u8, 85, 66, 32]);
        push_slice(&mut r, self.topic.as_slice());
        r.push(32);
        push_slice(&mut r, self.channel.as_slice());
        r.push(10);
        assert(r@ =~= self@);
        r
    }
}

/// The flow-control credit grant, with the count already rendered.
pub struct Rdy {
    count: Vec<u8>,
}

impl Rdy {
    /// Build from the rendered count.
    pub fn with_str(s: &str) -> (r: Rdy)
        ensures
            r@ == spec_rdy(s.spec_bytes()),
            r.wf(),
    {
        Rdy { count: s.as_bytes_vec() }
    }

    /// Build from the count itself.
    pub fn with_count(n: u32) -> (r: Rdy)
        ensures
            r@ == spec_rdy(spec_dec_u64(n as nat)),
            r.wf(),
    {
        let mut count: Vec<u8> = Vec::new();
        push_dec_u64(&mut count, n as u64);
        Rdy { count }
    }
}

impl View for Rdy {
    type V = Seq<u8>;

    closed spec fn view(&self) -> Seq<u8> {
        spec_rdy(self.count@)
    }
}

impl Encoder for Rdy {
    closed spec fn wf(&self) -> bool {
        true
    }

    fn encode(&self) -> (r: Vec<u8>) {
        let mut r: Vec<u8> = vec![82u8, 68, 89, 32];
        assert(r@ =~= seq![82u8, 68, 89, 32]);
        push_slice(&mut r, self.count.as_slice());
        r.push(10);
        assert(r@ =~= self@);
        r
    }
}

/// A single-message publication.
pub struct Pub {
    topic: Vec<u8>,
    body: Vec<u8>,
}

impl Pub {
    /// Build from a topic and one message body.
    pub fn with_topic_msg(topic: &str, msg: &[u8]) -> (r: Self)
        requires
            msg@.len() <= 0xFFFF_FFFF,
        ensures
            r@ == spec_pub(topic.spec_bytes(), msg@),
            r.wf(),
    {
        Pub { topic: topic.as_bytes_vec(), body: slice_to_vec(msg) }
    }
}

impl View for Pub {
    type V = Seq<u8>;

    closed spec fn view(&self) -> Seq<u8> {
        spec_pub(self.topic@, self.body@)
    }
}

impl Encoder for Pub {
    closed spec fn wf(&self) -> bool {
        self.body@.len() <= 0xFFFF_FFFF
    }

    fn encode(&self) -> (r: Vec<u8>) {
        let mut r: Vec<u8> = vec![80u8, 85, 66, 32];
        assert(r@ =~= seq![80u8, 85, 66, 32]);
        push_slice(&mut r, self.topic.as_slice());
        r.push(10);
        push_be_u32(&mut r, self.body.len() as u32);
        push_slice(&mut r, self.body.as_slice());
        assert(r@ =~= self@);
        r
    }
}

/// A multi-message publication.
pub struct Mpub {
    topic: Vec<u8>,
    bodies: Vec<Vec<u8>>,
}

impl Mpub {
    /// Build from a topic and the message bodies.
    pub fn with_topic_msgs(topic: &str, msgs: Vec<Vec<u8>>) -> (r: Mpub)
        requires
            msgs@.len() <= 0xFFFF_FFFF,
            spec_mpub_total(msgs.deep_view()) <= 0xFFFF_FFFF,
        ensures
            r@ == spec_mpub(topic.spec_bytes(), msgs.deep_view()),
            r.wf(),
    {
        Mpub { topic: topic.as_bytes_vec(), bodies: msgs }
    }
}

impl View for Mpub {
    type V = Seq<u8>;

    closed spec fn view(&self) -> Seq<u8> {
        spec_mpub(self.topic@, self.bodies.deep_view())
    }
}

/// Every prefix of the bodies accounts for no more bytes than the whole.
pub proof fn lemma_mpub_total_take_le(bodies: Seq<Seq<u8>>, j: int)
    requires
        0 <= j <= bodies.len(),
    ensures
        0 <= spec_mpub_total(bodies.take(j)) <= spec_mpub_total(bodies),
    decreases bodies.len() - j,
{
    lemma_mpub_total_nonneg(bodies.take(j));
    if j == bodies.len() {
        assert(bodies.take(j) =~= bodies);
    } else {
        lemma_mpub_total_take_le(bodies, j + 1);
        assert(bodies.take(j + 1).drop_last() =~= bodies.take(j));
        assert(spec_mpub_total(bodies.take(j + 1)) == spec_mpub_total(bodies.take(j)) + 4
            + bodies[j].len());
    }
}

/// The total of the length-prefixed bodies is never negative.
pub proof fn lemma_mpub_total_nonneg(bodies: Seq<Seq<u8>>)
    ensures
        spec_mpub_total(bodies) >= 0,
    decreases bodies.len(),
{
    if bodies.len() > 0 {
        lemma_mpub_total_nonneg(bodies.drop_last());
    }
}

impl Encoder for Mpub {
    closed spec fn wf(&self) -> bool {
        self.bodies@.len() <= 0xFFFF_FFFF && spec_mpub_total(self.bodies.deep_view())
            <= 0xFFFF_FFFF
    }

    fn encode(&self) -> (r: Vec<u8>) {
        let ghost all = self.bodies.deep_view();
        let n = self.bodies.len();
        // First pass: the total byte count of the length-prefixed bodies.
        let mut total: u64 = 0;
        let mut i: usize = 0;
        while i < n
            invariant
                n == self.bodies@.len(),
                all == self.bodies.deep_view(),
                spec_mpub_total(all) <= 0xFFFF_FFFF,
                i <= n,
                total == spec_mpub_total(all.take(i as int)),
            decreases n - i,
        {
            proof {
                lemma_mpub_total_take_le(all, i + 1);
                assert(all.take(i + 1).drop_last() =~= all.take(i as int));
                assert(all[i as int] == self.bodies@[i as int]@);
            }
            total = total + 4 + self.bodies[i].len() as u64;
            i = i + 1;
        }
        proof {
            assert(all.take(n as int) =~= all);
        }
        let mut r: Vec<u8> = vec![77u8, 80, 85, 66, 32];
        assert(r@ =~= seq![77u8, 80, 85, 66, 32]);
        push_slice(&mut r, self.topic.as_slice());
        r.push(10);
        push_be_u32(&mut r, total as u32);
        push_be_u32(&mut r, n as u32);
        let ghost prefix = r@;
        // Second pass: each body, length-prefixed.
        let mut i: usize = 0;
        while i < n
            invariant
                n == self.bodies@.len(),
                all == self.bodies.deep_view(),
                spec_mpub_total(all) <= 0xFFFF_FFFF,
                i <= n,
                r@ == prefix + spec_mpub_items(all.take(i as int)),
            decreases n - i,
        {
            proof {
                lemma_mpub_total_take_le(all, i + 1);
                lemma_mpub_total_nonneg(all.take(i as int));
                assert(all.take(i + 1).drop_last() =~= all.take(i as int));
                assert(spec_mpub_total(all.take(i + 1)) == spec_mpub_total(all.take(i as int)) + 4
                    + all[i as int].len());
                assert(all[i as int] == self.bodies@[i as int]@);
            }
            push_be_u32(&mut r, self.bodies[i].len() as u32);
            push_slice(&mut r, self.bodies[i].as_slice());
            i = i + 1;
            assert(r@ =~= prefix + spec_mpub_items(all.take(i as int)));
        }
        proof {
            assert(all.take(n as int) =~= all);
            assert(r@ =~= self@);
        }
        r
    }
}

/// A deferred single-message publication.
pub struct Dpub {
    topic: Vec<u8>,
    delay_ms: u32,
    body: Vec<u8>,
}

impl Dpub {
    /// Build from a topic, a delay in milliseconds and one message body.
    pub fn with_topic_time_msg(topic: &str, time: u32, msg: &[u8]) -> (r: Dpub)
        requires
            msg@.len() <= 0xFFFF_FFFF,
        ensures
            r@ == spec_dpub(topic.spec_bytes(), time, msg@),
            r.wf(),
    {
        Dpub { topic: topic.as_bytes_vec(), delay_ms: time, body: slice_to_vec(msg) }
    }
}

impl View for Dpub {
    type V = Seq<u8>;

    closed spec fn view(&self) -> Seq<u8> {
        spec_dpub(self.topic@, self.delay_ms, self.body@)
    }
}

impl Encoder for Dpub {
    closed spec fn wf(&self) -> bool {
        self.body@.len() <= 0xFFFF_FFFF
    }

    fn encode(&self) -> (r: Vec<u8>) {
        let mut r: Vec<u8> = vec![68u8, 80, 85, 66, 32];
        assert(r@ =~= seq![68u8, 80, 85, 66, 32]);
        push_slice(&mut r, self.topic.as_slice());
        r.push(32);
        push_dec_u64(&mut r, self.delay_ms as u64);
        r.push(10);
        push_be_u32(&mut r, self.body.len() as u32);
        push_slice(&mut r, self.body.as_slice());
        assert(r@ =~= self@);
        r
    }
}

/// The in-flight timeout extension for one message.
pub struct Touch {
    id: Vec<u8>,
}

impl Touch {
    /// Build from a message id.
    pub fn with_id(id: &str) -> (r: Self)
        ensures
            r@ == spec_touch(id.spec_bytes()),
            r.wf(),
    {
        Touch { id: id.as_bytes_vec() }
    }
}

impl View for Touch {
    type V = Seq<u8>;

    closed spec fn view(&self) -> Seq<u8> {
        spec_touch(self.id@)
    }
}

impl Encoder for Touch {
    closed spec fn wf(&self) -> bool {
        true
    }

    fn encode(&self) -> (r: Vec<u8>) {
        let mut r: Vec<u8> = vec![84u8, 79, 85, 67, 72, 32];
        assert(r@ =~= seq![84u8, 79, 85, 67, 72, 32]);
        push_slice(&mut r, self.id.as_slice());
        r.push(10);
        assert(r@ =~= self@);
        r
    }
}

/// The acknowledgement of one message.
pub struct Fin {
    id: Vec<u8>,
}

impl Fin {
    /// Build from a message id.
    pub fn with_id(id: &str) -> (r: Self)
        ensures
            r@ == spec_fin(id.spec_bytes()),
            r.wf(),
    {
        Fin { id: id.as_bytes_vec() }
    }
}

impl View for Fin {
    type V = Seq<u8>;

    closed spec fn view(&self) -> Seq<u8> {
        spec_fin(self.id@)
    }
}

impl Encoder for Fin {
    closed spec fn wf(&self) -> bool {
        true
    }

    fn encode(&self) -> (r: Vec<u8>) {
        let mut r: Vec<u8> = vec![70u8, 73, 78, 32];
        assert(r@ =~= seq![70u8, 73, 78, 32]);
        push_slice(&mut r, self.id.as_slice());
        r.push(10);
        assert(r@ =~= self@);
        r
    }
}

/// The re-queue request for one message.
pub struct Req {
    id: Vec<u8>,
    timeout_ms: u32,
}

impl Req {
    /// Build from a message id and a re-queue timeout in milliseconds.
    pub fn with_id_timeout(id: &str, timeout: u32) -> (r: Self)
        ensures
            r@ == spec_req(id.spec_bytes(), timeout),
            r.wf(),
    {
        Req { id: id.as_bytes_vec(), timeout_ms: timeout }
    }
}

impl View for Req {
    type V = Seq<u8>;

    closed spec fn view(&self) -> Seq<u8> {
        spec_req(self.id@, self.timeout_ms)
    }
}

impl Encoder for Req {
    closed spec fn wf(&self) -> bool {
        true
    }

    fn encode(&self) -> (r: Vec<u8>) {
        let mut r: Vec<u8> = vec![82u8, 69, 81, 32];
        assert(r@ =~= seq![82u8, 69, 81, 32]);
        push_slice(&mut r, self.id.as_slice());
        r.push(32);
        push_dec_u64(&mut r, self.timeout_ms as u64);
        r.push(10);
        assert(r@ =~= self@);
        r
    }
}

/// Encode a feature-negotiation request around already-rendered JSON bytes.
pub fn encode_identify_bytes(cfg: &[u8]) -> (r: Vec<u8>)
    requires
        cfg@.len() <= 0xFFFF_FFFF,
    ensures
        r@ == spec_identify(cfg@),
{
    let mut r: Vec<u8> = vec![73u8, 68, 69, 78, 84, 73, 70, 89, 10];
    assert(r@ =~= seq![73u8, 68, 69, 78, 84, 73, 70, 89, 10]);
    push_be_u32(&mut r, cfg.len() as u32);
    push_slice(&mut r, cfg);
    assert(r@ =~= spec_identify(cfg@));
    r
}

/// Encode an authentication request around the token bytes.
pub fn encode_auth_bytes(token: &[u8]) -> (r: Vec<u8>)
    requires
        token@.len() <= 0xFFFF_FFFF,
    ensures
        r@ == spec_auth(token@),
{
    let mut r: Vec<u8> = vec![65u8, 85, 84, 72, 10];
    assert(r@ =~= seq![65u8, 85, 84, 72, 10]);
    push_be_u32(&mut r, token.len() as u32);
    push_slice(&mut r, token);
    assert(r@ =~= spec_auth(token@));
    r
}

/// Copy a byte slice into an owned buffer.
pub fn slice_to_vec(s: &[u8]) -> (r: Vec<u8>)
    ensures
        r@ == s@,
{
    let mut r: Vec<u8> = Vec::new();
    push_slice(&mut r, s);
    r
}

} // verus!
