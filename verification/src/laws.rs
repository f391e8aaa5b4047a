//! Round-trip laws of the wire codec: parsing the encoding of any command
//! recovers the command, and each encoding's length is exactly its header
//! plus its fields.

use vstd::prelude::*;
use crate::codec::{
    spec_auth, spec_cls, spec_dpub, spec_fin, spec_identify, spec_magic, spec_mpub,
    spec_mpub_items, spec_mpub_total, spec_nop, spec_pub, spec_rdy, spec_req, spec_sub, spec_touch,
    lemma_mpub_total_nonneg,
};
use crate::wire::{
    lemma_be_u32_round_trip, lemma_dec_digits, lemma_dec_round_trip, spec_be_val, spec_dec_u64,
    spec_parse_dec,
};

verus! {

/// The logical content of a command, one variant per wire command.
pub enum CmdModel {
    /// The protocol magic.
    Magic,
    /// The liveness reply.
    Nop,
    /// The clean close.
    Cls,
    /// Feature negotiation, with the configuration JSON bytes.
    Identify(Seq<u8>),
    /// Authentication, with the token bytes.
    Auth(Seq<u8>),
    /// Subscription: topic, then channel.
    Sub(Seq<u8>, Seq<u8>),
    /// Flow-control credit, with the rendered count.
    Rdy(Seq<u8>),
    /// One publication: topic and body.
    Pub(Seq<u8>, Seq<u8>),
    /// A multi-publication: topic and bodies.
    Mpub(Seq<u8>, Seq<Seq<u8>>),
    /// A deferred publication: topic, delay and body.
    Dpub(Seq<u8>, u32, Seq<u8>),
    /// Extend one message's timeout.
    Touch(Seq<u8>),
    /// Acknowledge one message.
    Fin(Seq<u8>),
    /// Re-queue one message after a timeout.
    Req(Seq<u8>, u32),
}

/// The canonical encoding of a command model.
pub open spec fn spec_encode_cmd(c: CmdModel) -> Seq<u8> {
    match c {
        CmdModel::Magic => spec_magic(),
        CmdModel::Nop => spec_nop(),
        CmdModel::Cls => spec_cls(),
        CmdModel::Identify(cfg) => spec_identify(cfg),
        CmdModel::Auth(tok) => spec_auth(tok),
        CmdModel::Sub(topic, channel) => spec_sub(topic, channel),
        CmdModel::Rdy(count) => spec_rdy(count),
        CmdModel::Pub(topic, body) => spec_pub(topic, body),
        CmdModel::Mpub(topic, bodies) => spec_mpub(topic, bodies),
        CmdModel::Dpub(topic, delay, body) => spec_dpub(topic, delay, body),
        CmdModel::Touch(id) => spec_touch(id),
        CmdModel::Fin(id) => spec_fin(id),
        CmdModel::Req(id, timeout) => spec_req(id, timeout),
    }
}

/// The commands whose encoding parses back: length fields must fit, and a
/// field must not contain the separator that ends it — a topic with a space
/// inside cannot survive a `SUB` line, for instance.
pub open spec fn spec_cmd_wf(c: CmdModel) -> bool {
    match c {
        CmdModel::Magic => true,
        CmdModel::Nop => true,
        CmdModel::Cls => true,
        CmdModel::Identify(cfg) => cfg.len() <= 0xFFFF_FFFF,
        CmdModel::Auth(tok) => tok.len() <= 0xFFFF_FFFF,
        CmdModel::Sub(topic, channel) => !topic.contains(32) && !channel.contains(10),
        CmdModel::Rdy(count) => !count.contains(10),
        CmdModel::Pub(topic, body) => !topic.contains(10) && body.len() <= 0xFFFF_FFFF,
        CmdModel::Mpub(topic, bodies) => !topic.contains(10) && bodies.len() <= 0xFFFF_FFFF
            && spec_mpub_total(bodies) <= 0xFFFF_FFFF,
        CmdModel::Dpub(topic, delay, body) => !topic.contains(32) && body.len() <= 0xFFFF_FFFF,
        CmdModel::Touch(id) => !id.contains(10),
        CmdModel::Fin(id) => !id.contains(10),
        CmdModel::Req(id, timeout) => !id.contains(32),
    }
}

/// The index of the first occurrence of `x`, or `-1`.
pub open spec fn find_byte(b: Seq<u8>, x: u8) -> int
    decreases b.len(),
{
    if b.len() == 0 {
        -1
    } else if b[0] == x {
        0
    } else {
        let r = find_byte(b.drop_first(), x);
        if r < 0 {
            -1
        } else {
            r + 1
        }
    }
}

/// In a sequence shaped `a ++ [x] ++ c` where `a` avoids `x`, the first `x`
/// sits right after `a`.
pub proof fn lemma_find_byte_concat(a: Seq<u8>, x: u8, c: Seq<u8>)
    requires
        !a.contains(x),
    ensures
        find_byte(a + seq![x] + c, x) == a.len(),
    decreases a.len(),
{
    let b = a + seq![x] + c;
    if a.len() == 0 {
        assert(b[0] == x);
    } else {
        assert(a.contains(a[0])) by {
            assert(a[0] == a[0]);
        }
        assert(b[0] == a[0]);
        assert(b[0] != x);
        assert(!a.drop_first().contains(x)) by {
            if a.drop_first().contains(x) {
                let k = choose|k: int| 0 <= k < a.drop_first().len() && a.drop_first()[k] == x;
                assert(a[k + 1] == x);
                assert(a.contains(x));
            }
        }
        lemma_find_byte_concat(a.drop_first(), x, c);
        assert(b.drop_first() =~= a.drop_first() + seq![x] + c);
    }
}

/// A parsed length-prefixed tail: the four size bytes must count exactly the
/// rest.
pub open spec fn spec_parse_len_payload(b: Seq<u8>) -> Option<Seq<u8>> {
    if b.len() >= 4 && spec_be_val(b.subrange(0, 4)) == b.len() - 4 {
        Some(b.skip(4))
    } else {
        None
    }
}

/// Parse the length-prefixed bodies of a multi-publication: exactly `count`
/// of them, consuming everything.
pub open spec fn spec_parse_mpub_items(b: Seq<u8>, count: nat) -> Option<Seq<Seq<u8>>>
    decreases count,
{
    if count == 0 {
        if b.len() == 0 {
            Some(Seq::<Seq<u8>>::empty())
        } else {
            None
        }
    } else if b.len() >= 4 && 4 + spec_be_val(b.subrange(0, 4)) <= b.len() {
        let l = spec_be_val(b.subrange(0, 4));
        let item = b.subrange(4, 4 + l);
        match spec_parse_mpub_items(b.skip(4 + l), (count - 1) as nat) {
            Some(rest) => Some(seq![item] + rest),
            None => None,
        }
    } else {
        None
    }
}

/// Which command, if any, a byte string is the canonical encoding of.
pub open spec fn spec_parse_cmd(b: Seq<u8>) -> Option<CmdModel> {
    if b == spec_magic() {
        Some(CmdModel::Magic)
    } else if b == spec_nop() {
        Some(CmdModel::Nop)
    } else if b == spec_cls() {
        Some(CmdModel::Cls)
    } else if b.len() >= 9 && b.subrange(0, 9) == seq![73u8, 68, 69, 78, 84, 73, 70, 89, 10] {
        match spec_parse_len_payload(b.skip(9)) {
            Some(cfg) => Some(CmdModel::Identify(cfg)),
            None => None,
        }
    } else if b.len() >= 5 && b.subrange(0, 5) == seq![65u8, 85, 84, 72, 10] {
        match spec_parse_len_payload(b.skip(5)) {
            Some(tok) => Some(CmdModel::Auth(tok)),
            None => None,
        }
    } else if b.len() >= 4 && b.subrange(0, 4) == seq![83u8, 85, 66, 32] {
        // SUB topic ' ' channel '\n'
        let rest = b.skip(4);
        let i = find_byte(rest, 32);
        if i < 0 {
            None
        } else {
            let topic = rest.subrange(0, i);
            let tail = rest.skip(i + 1);
            if tail.len() >= 1 && find_byte(tail, 10) == tail.len() - 1 {
                Some(CmdModel::Sub(topic, tail.subrange(0, tail.len() - 1)))
            } else {
                None
            }
        }
    } else if b.len() >= 4 && b.subrange(0, 4) == seq![82u8, 68, 89, 32] {
        // RDY count '\n'
        let rest = b.skip(4);
        if rest.len() >= 1 && find_byte(rest, 10) == rest.len() - 1 {
            Some(CmdModel::Rdy(rest.subrange(0, rest.len() - 1)))
        } else {
            None
        }
    } else if b.len() >= 4 && b.subrange(0, 4) == seq![80u8, 85, 66, 32] {
        // PUB topic '\n' len body
        let rest = b.skip(4);
        let i = find_byte(rest, 10);
        if i < 0 {
            None
        } else {
            match spec_parse_len_payload(rest.skip(i + 1)) {
                Some(body) => Some(CmdModel::Pub(rest.subrange(0, i), body)),
                None => None,
            }
        }
    } else if b.len() >= 5 && b.subrange(0, 5) == seq![77u8, 80, 85, 66, 32] {
        // MPUB topic '\n' total count items
        let rest = b.skip(5);
        let i = find_byte(rest, 10);
        if i < 0 || rest.len() < i + 9 {
            None
        } else {
            let topic = rest.subrange(0, i);
            let total = spec_be_val(rest.subrange(i + 1, i + 5));
            let count = spec_be_val(rest.subrange(i + 5, i + 9));
            let items = rest.skip(i + 9);
            if total != items.len() {
                None
            } else {
                match spec_parse_mpub_items(items, count as nat) {
                    Some(bodies) => Some(CmdModel::Mpub(topic, bodies)),
                    None => None,
                }
            }
        }
    } else if b.len() >= 5 && b.subrange(0, 5) == seq![68u8, 80, 85, 66, 32] {
        // DPUB topic ' ' delay '\n' len body
        let rest = b.skip(5);
        let i = find_byte(rest, 32);
        if i < 0 {
            None
        } else {
            let topic = rest.subrange(0, i);
            let tail = rest.skip(i + 1);
            let j = find_byte(tail, 10);
            if j < 0 || spec_parse_dec(tail.subrange(0, j)) > 0xFFFF_FFFF {
                None
            } else {
                let delay = spec_parse_dec(tail.subrange(0, j)) as u32;
                match spec_parse_len_payload(tail.skip(j + 1)) {
                    Some(body) => Some(CmdModel::Dpub(topic, delay, body)),
                    None => None,
                }
            }
        }
    } else if b.len() >= 6 && b.subrange(0, 6) == seq![84u8, 79, 85, 67, 72, 32] {
        // TOUCH id '\n'
        let rest = b.skip(6);
        if rest.len() >= 1 && find_byte(rest, 10) == rest.len() - 1 {
            Some(CmdModel::Touch(rest.subrange(0, rest.len() - 1)))
        } else {
            None
        }
    } else if b.len() >= 4 && b.subrange(0, 4) == seq![70u8, 73, 78, 32] {
        // FIN id '\n'
        let rest = b.skip(4);
        if rest.len() >= 1 && find_byte(rest, 10) == rest.len() - 1 {
            Some(CmdModel::Fin(rest.subrange(0, rest.len() - 1)))
        } else {
            None
        }
    } else if b.len() >= 4 && b.subrange(0, 4) == seq![82u8, 69, 81, 32] {
        // REQ id ' ' timeout '\n'
        let rest = b.skip(4);
        let i = find_byte(rest, 32);
        if i < 0 {
            None
        } else {
            let id = rest.subrange(0, i);
            let tail = rest.skip(i + 1);
            if tail.len() >= 1 && find_byte(tail, 10) == tail.len() - 1 && spec_parse_dec(
                tail.subrange(0, tail.len() - 1),
            ) <= 0xFFFF_FFFF {
                Some(CmdModel::Req(id, spec_parse_dec(tail.subrange(0, tail.len() - 1)) as u32))
            } else {
                None
            }
        }
    } else {
        None
    }
}

/// Decimal digit bytes never collide with the separators.
proof fn lemma_dec_no_separator(n: nat)
    ensures
        !spec_dec_u64(n).contains(10),
        !spec_dec_u64(n).contains(32),
{
    lemma_dec_digits(n);
    if spec_dec_u64(n).contains(10) {
        let k = choose|k: int| 0 <= k < spec_dec_u64(n).len() && spec_dec_u64(n)[k] == 10;
    }
    if spec_dec_u64(n).contains(32) {
        let k = choose|k: int| 0 <= k < spec_dec_u64(n).len() && spec_dec_u64(n)[k] == 32;
    }
}

/// The length-prefixed bodies of a multi-publication occupy exactly the
/// total they declare.
pub proof fn lemma_mpub_items_len(bodies: Seq<Seq<u8>>)
    ensures
        spec_mpub_items(bodies).len() == spec_mpub_total(bodies),
    decreases bodies.len(),
{
    if bodies.len() > 0 {
        lemma_mpub_items_len(bodies.drop_last());
    }
}

/// The items of a multi-publication start with its first body.
pub proof fn lemma_mpub_items_first(bodies: Seq<Seq<u8>>)
    requires
        bodies.len() > 0,
    ensures
        spec_mpub_items(bodies) == crate::wire::spec_be_u32(bodies.first().len() as u32)
            + bodies.first() + spec_mpub_items(bodies.drop_first()),
        spec_mpub_total(bodies) == 4 + bodies.first().len() + spec_mpub_total(bodies.drop_first()),
    decreases bodies.len(),
{
    if bodies.len() == 1 {
        assert(bodies.drop_last() =~= Seq::<Seq<u8>>::empty());
        assert(bodies.drop_first() =~= Seq::<Seq<u8>>::empty());
        assert(bodies.last() == bodies.first());
        assert(spec_mpub_items(bodies) =~= crate::wire::spec_be_u32(bodies.first().len() as u32)
            + bodies.first() + spec_mpub_items(bodies.drop_first()));
    } else {
        lemma_mpub_items_first(bodies.drop_last());
        assert(bodies.drop_last().first() == bodies.first());
        assert(bodies.drop_last().drop_first() =~= bodies.drop_first().drop_last());
        assert(bodies.drop_first().last() == bodies.last());
        assert(spec_mpub_items(bodies) == spec_mpub_items(bodies.drop_last())
            + crate::wire::spec_be_u32(bodies.last().len() as u32) + bodies.last());
        assert(spec_mpub_items(bodies.drop_first()) == spec_mpub_items(
            bodies.drop_first().drop_last(),
        ) + crate::wire::spec_be_u32(bodies.drop_first().last().len() as u32)
            + bodies.drop_first().last());
        assert(spec_mpub_items(bodies) =~= crate::wire::spec_be_u32(bodies.first().len() as u32)
            + bodies.first() + spec_mpub_items(bodies.drop_first()));
    }
}

/// Every body of a multi-publication fits inside the declared total.
pub proof fn lemma_mpub_item_bound(bodies: Seq<Seq<u8>>)
    requires
        bodies.len() > 0,
    ensures
        4 + bodies.first().len() <= spec_mpub_total(bodies),
{
    lemma_mpub_items_first(bodies);
    lemma_mpub_total_nonneg(bodies.drop_first());
}

/// Parsing the rendered bodies of a multi-publication recovers them.
proof fn lemma_mpub_items_round_trip(bodies: Seq<Seq<u8>>)
    requires
        spec_mpub_total(bodies) <= 0xFFFF_FFFF,
    ensures
        spec_parse_mpub_items(spec_mpub_items(bodies), bodies.len()) == Some(bodies),
    decreases bodies.len(),
{
    if bodies.len() == 0 {
        assert(spec_mpub_items(bodies) =~= Seq::<u8>::empty());
    } else {
        let first = bodies.first();
        let rest = bodies.drop_first();
        lemma_mpub_items_first(bodies);
        lemma_mpub_item_bound(bodies);
        lemma_mpub_total_nonneg(rest);
        let b = spec_mpub_items(bodies);
        lemma_be_u32_round_trip(first.len() as u32);
        assert(b.subrange(0, 4) =~= crate::wire::spec_be_u32(first.len() as u32));
        assert(spec_be_val(b.subrange(0, 4)) == first.len());
        lemma_mpub_items_len(bodies);
        assert(b.subrange(4, 4 + first.len() as int) =~= first);
        assert(b.skip(4 + first.len() as int) =~= spec_mpub_items(rest));
        lemma_mpub_items_round_trip(rest);
        assert(seq![first] + rest =~= bodies);
    }
}

/// Parsing the canonical encoding of any well-formed command recovers that
/// command.
#[verifier::rlimit(100)]
#[verifier::spinoff_prover]
pub proof fn lemma_cmd_round_trip(c: CmdModel)
    requires
        spec_cmd_wf(c),
    ensures
        spec_parse_cmd(spec_encode_cmd(c)) == Some(c),
{
    let b = spec_encode_cmd(c);
    match c {
        CmdModel::Magic => {
        },
        CmdModel::Nop => {
            assert(b != spec_magic()) by {
                assert(b[0] == 78 && spec_magic()[0] == 32);
            }
        },
        CmdModel::Cls => {
            assert(b != spec_magic()) by {
                assert(b[0] == 67 && spec_magic()[0] == 32);
            }
            assert(b != spec_nop()) by {
                assert(b[0] == 67 && spec_nop()[0] == 78);
            }
        },
        CmdModel::Identify(cfg) => {
            lemma_not_fixed(b, 73);
            assert(b.subrange(0, 9) =~= seq![73u8, 68, 69, 78, 84, 73, 70, 89, 10]);
            let tail = b.skip(9);
            assert(tail =~= crate::wire::spec_be_u32(cfg.len() as u32) + cfg);
            lemma_be_u32_round_trip(cfg.len() as u32);
            assert(tail.subrange(0, 4) =~= crate::wire::spec_be_u32(cfg.len() as u32));
            assert(tail.skip(4) =~= cfg);
        },
        CmdModel::Auth(tok) => {
            lemma_not_fixed(b, 65);
            assert(b.len() >= 9 ==> b.subrange(0, 9) != seq![73u8, 68, 69, 78, 84, 73, 70, 89, 10])
                by {
                if b.len() >= 9 {
                    assert(b.subrange(0, 9)[0] == 65);
                }
            }
            assert(b.subrange(0, 5) =~= seq![65u8, 85, 84, 72, 10]);
            let tail = b.skip(5);
            assert(tail =~= crate::wire::spec_be_u32(tok.len() as u32) + tok);
            lemma_be_u32_round_trip(tok.len() as u32);
            assert(tail.subrange(0, 4) =~= crate::wire::spec_be_u32(tok.len() as u32));
            assert(tail.skip(4) =~= tok);
        },
        CmdModel::Sub(topic, channel) => {
            lemma_header_cases(b, 83, 85);
            assert(b.subrange(0, 4) =~= seq![83u8, 85, 66, 32]);
            let rest = b.skip(4);
            assert(rest =~= topic + seq![32u8] + (channel + seq![10u8]));
            lemma_find_byte_concat(topic, 32, channel + seq![10u8]);
            assert(rest.subrange(0, topic.len() as int) =~= topic);
            let tail = rest.skip(topic.len() as int + 1);
            assert(tail =~= channel + seq![10u8]);
            lemma_find_byte_concat(channel, 10, Seq::<u8>::empty());
            assert(channel + seq![10u8] + Seq::<u8>::empty() =~= tail);
            assert(tail.subrange(0, tail.len() - 1) =~= channel);
        },
        CmdModel::Rdy(count) => {
            lemma_header_cases(b, 82, 68);
            assert(b.subrange(0, 4) =~= seq![82u8, 68, 89, 32]);
            let rest = b.skip(4);
            assert(rest =~= count + seq![10u8]);
            lemma_find_byte_concat(count, 10, Seq::<u8>::empty());
            assert(count + seq![10u8] + Seq::<u8>::empty() =~= rest);
            assert(rest.subrange(0, rest.len() - 1) =~= count);
        },
        CmdModel::Pub(topic, body) => {
            lemma_header_cases(b, 80, 85);
            assert(b.subrange(0, 4) =~= seq![80u8, 85, 66, 32]);
            let rest = b.skip(4);
            let tail = crate::wire::spec_be_u32(body.len() as u32) + body;
            assert(rest =~= topic + seq![10u8] + tail);
            lemma_find_byte_concat(topic, 10, tail);
            assert(rest.subrange(0, topic.len() as int) =~= topic);
            assert(rest.skip(topic.len() as int + 1) =~= tail);
            lemma_be_u32_round_trip(body.len() as u32);
            assert(tail.subrange(0, 4) =~= crate::wire::spec_be_u32(body.len() as u32));
            assert(tail.skip(4) =~= body);
        },
        CmdModel::Mpub(topic, bodies) => {
            lemma_header_cases(b, 77, 80);
            assert(b.len() >= 5 && b.subrange(0, 5) =~= seq![77u8, 80, 85, 66, 32]);
            let rest = b.skip(5);
            let items = spec_mpub_items(bodies);
            let tail = crate::wire::spec_be_u32(spec_mpub_total(bodies) as u32)
                + crate::wire::spec_be_u32(bodies.len() as u32) + items;
            assert(rest =~= topic + seq![10u8] + tail);
            lemma_find_byte_concat(topic, 10, tail);
            let i = topic.len() as int;
            assert(rest.subrange(0, i) =~= topic);
            lemma_mpub_total_nonneg(bodies);
            lemma_mpub_items_len(bodies);
            assert(rest.len() >= i + 9);
            assert(rest.subrange(i + 1, i + 5) =~= crate::wire::spec_be_u32(
                spec_mpub_total(bodies) as u32,
            ));
            assert(rest.subrange(i + 5, i + 9) =~= crate::wire::spec_be_u32(bodies.len() as u32));
            lemma_be_u32_round_trip(spec_mpub_total(bodies) as u32);
            lemma_be_u32_round_trip(bodies.len() as u32);
            assert(rest.skip(i + 9) =~= items);
            lemma_mpub_items_round_trip(bodies);
        },
        CmdModel::Dpub(topic, delay, body) => {
            lemma_header_cases(b, 68, 80);
            assert(b.len() >= 5 && b.subrange(0, 5) =~= seq![68u8, 80, 85, 66, 32]);
            let rest = b.skip(5);
            let digits = spec_dec_u64(delay as nat);
            let tail2 = crate::wire::spec_be_u32(body.len() as u32) + body;
            let after = digits + seq![10u8] + tail2;
            assert(rest =~= topic + seq![32u8] + after);
            lemma_find_byte_concat(topic, 32, after);
            let i = topic.len() as int;
            assert(rest.subrange(0, i) =~= topic);
            let tail = rest.skip(i + 1);
            assert(tail =~= after);
            lemma_dec_no_separator(delay as nat);
            lemma_find_byte_concat(digits, 10, tail2);
            let j = digits.len() as int;
            assert(tail.subrange(0, j) =~= digits);
            lemma_dec_round_trip(delay as nat);
            assert(tail.skip(j + 1) =~= tail2);
            lemma_be_u32_round_trip(body.len() as u32);
            assert(tail2.subrange(0, 4) =~= crate::wire::spec_be_u32(body.len() as u32));
            assert(tail2.skip(4) =~= body);
        },
        CmdModel::Touch(id) => {
            lemma_header_cases(b, 84, 79);
            assert(b.len() >= 6 && b.subrange(0, 6) =~= seq![84u8, 79, 85, 67, 72, 32]);
            let rest = b.skip(6);
            assert(rest =~= id + seq![10u8]);
            lemma_find_byte_concat(id, 10, Seq::<u8>::empty());
            assert(id + seq![10u8] + Seq::<u8>::empty() =~= rest);
            assert(rest.subrange(0, rest.len() - 1) =~= id);
        },
        CmdModel::Fin(id) => {
            lemma_header_cases(b, 70, 73);
            assert(b.subrange(0, 4) =~= seq![70u8, 73, 78, 32]);
            let rest = b.skip(4);
            assert(rest =~= id + seq![10u8]);
            lemma_find_byte_concat(id, 10, Seq::<u8>::empty());
            assert(id + seq![10u8] + Seq::<u8>::empty() =~= rest);
            assert(rest.subrange(0, rest.len() - 1) =~= id);
        },
        CmdModel::Req(id, timeout) => {
            lemma_header_cases(b, 82, 69);
            assert(b.subrange(0, 4) =~= seq![82u8, 69, 81, 32]);
            let rest = b.skip(4);
            let digits = spec_dec_u64(timeout as nat);
            assert(rest =~= id + seq![32u8] + (digits + seq![10u8]));
            lemma_find_byte_concat(id, 32, digits + seq![10u8]);
            let i = id.len() as int;
            assert(rest.subrange(0, i) =~= id);
            let tail = rest.skip(i + 1);
            assert(tail =~= digits + seq![10u8]);
            lemma_dec_no_separator(timeout as nat);
            lemma_find_byte_concat(digits, 10, Seq::<u8>::empty());
            assert(digits + seq![10u8] + Seq::<u8>::empty() =~= tail);
            assert(tail.subrange(0, tail.len() - 1) =~= digits);
            lemma_dec_round_trip(timeout as nat);
        },
    }
}

/// A buffer with this first byte is none of the three fixed commands.
proof fn lemma_not_fixed(b: Seq<u8>, first: u8)
    requires
        b.len() > 0,
        b[0] == first,
        first != 32,
        first != 78,
        first != 67,
    ensures
        b != spec_magic(),
        b != spec_nop(),
        b != spec_cls(),
{
    assert(spec_magic()[0] == 32);
    assert(spec_nop()[0] == 78);
    assert(spec_cls()[0] == 67);
}

/// A buffer whose first two bytes are given is none of the fixed commands
/// and matches no header whose first two bytes differ.
proof fn lemma_header_cases(b: Seq<u8>, b0: u8, b1: u8)
    requires
        b.len() >= 4,
        b[0] == b0,
        b[1] == b1,
        !(b0 == 32),
        !(b0 == 78),
        !(b0 == 67),
    ensures
        b != spec_magic(),
        b != spec_nop(),
        b != spec_cls(),
        b.len() >= 9 && b0 != 73 ==> b.subrange(0, 9) != seq![73u8, 68, 69, 78, 84, 73, 70, 89, 10],
        b.len() >= 5 && b0 != 65 ==> b.subrange(0, 5) != seq![65u8, 85, 84, 72, 10],
        !(b0 == 83 && b1 == 85) ==> b.subrange(0, 4) != seq![83u8, 85, 66, 32],
        !(b0 == 82 && b1 == 68) ==> b.subrange(0, 4) != seq![82u8, 68, 89, 32],
        !(b0 == 80 && b1 == 85) ==> b.subrange(0, 4) != seq![80u8, 85, 66, 32],
        b.len() >= 5 && !(b0 == 77 && b1 == 80) ==> b.subrange(0, 5) != seq![77u8, 80, 85, 66, 32],
        b.len() >= 5 && !(b0 == 68 && b1 == 80) ==> b.subrange(0, 5) != seq![68u8, 80, 85, 66, 32],
        b.len() >= 6 && !(b0 == 84 && b1 == 79) ==> b.subrange(0, 6) != seq![
            84u8,
            79,
            85,
            67,
            72,
            32,
        ],
        !(b0 == 70 && b1 == 73) ==> b.subrange(0, 4) != seq![70u8, 73, 78, 32],
        !(b0 == 82 && b1 == 69) ==> b.subrange(0, 4) != seq![82u8, 69, 81, 32],
{
    lemma_not_fixed(b, b0);
    if b.len() >= 9 {
        assert(b.subrange(0, 9)[0] == b0);
    }
    if b.len() >= 5 {
        assert(b.subrange(0, 5)[0] == b0 && b.subrange(0, 5)[1] == b1);
    }
    if b.len() >= 6 {
        assert(b.subrange(0, 6)[0] == b0 && b.subrange(0, 6)[1] == b1);
    }
    assert(b.subrange(0, 4)[0] == b0 && b.subrange(0, 4)[1] == b1);
}

/// Each encoding's length is exactly its header plus its fields: four bytes
/// for the fixed commands, the header and separators around each field, four
/// bytes for each length, and the decimal digits themselves.
pub proof fn lemma_cmd_encoding_length(c: CmdModel)
    ensures
        spec_encode_cmd(c).len() == match c {
            CmdModel::Magic => 4int,
            CmdModel::Nop => 4int,
            CmdModel::Cls => 4int,
            CmdModel::Identify(cfg) => 9 + 4 + cfg.len() as int,
            CmdModel::Auth(tok) => 5 + 4 + tok.len() as int,
            CmdModel::Sub(topic, channel) => 4 + topic.len() as int + 1 + channel.len() as int + 1,
            CmdModel::Rdy(count) => 4 + count.len() as int + 1,
            CmdModel::Pub(topic, body) => 4 + topic.len() as int + 1 + 4 + body.len() as int,
            CmdModel::Mpub(topic, bodies) => 5 + topic.len() as int + 1 + 4 + 4 + spec_mpub_total(bodies),
            CmdModel::Dpub(topic, delay, body) => 5 + topic.len() as int + 1 + spec_dec_u64(
                delay as nat,
            ).len() as int + 1 + 4 + body.len() as int,
            CmdModel::Touch(id) => 6 + id.len() as int + 1,
            CmdModel::Fin(id) => 4 + id.len() as int + 1,
            CmdModel::Req(id, timeout) => 4 + id.len() as int + 1 + spec_dec_u64(
                timeout as nat,
            ).len() as int + 1,
        },
{
    match c {
        CmdModel::Mpub(topic, bodies) => {
            lemma_mpub_items_len(bodies);
        },
        _ => {
        },
    }
}

} // verus!
