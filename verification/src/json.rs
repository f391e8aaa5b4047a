//! JSON rendering of plain values: string escaping, booleans, null.
//!
//! The configuration sent in the feature-negotiation request is rendered
//! here, field by field, so the exact bytes on the wire are pinned down.

use vstd::prelude::*;
use vstd::string::StringSliceAdditionalSpecFns;
use vstd::utf8::encode_utf8;

verus! {

/// The lowercase hex digit of a value below 16.
pub open spec fn spec_hex_digit(n: int) -> u8 {
    if n < 10 {
        (48 + n) as u8
    } else {
        (87 + n) as u8
    }
}

/// How one byte of a string renders inside a JSON string: the two-character
/// escapes of the JSON grammar, `\u00XX` for the other control bytes, and
/// every other byte as itself.
pub open spec fn spec_escape_byte(x: u8) -> Seq<u8> {
    if x == 34 {
        seq![92u8, 34]  // \"
    } else if x == 92 {
        seq![92u8, 92]  // \\
    } else if x == 8 {
        seq![92u8, 98]  // \b
    } else if x == 9 {
        seq![92u8, 116]  // \t
    } else if x == 10 {
        seq![92u8, 110]  // \n
    } else if x == 12 {
        seq![92u8, 102]  // \f
    } else if x == 13 {
        seq![92u8, 114]  // \r
    } else if x < 32 {
        seq![92u8, 117, 48, 48, spec_hex_digit(x as int / 16), spec_hex_digit(x as int % 16)]
    } else {
        seq![x]
    }
}

/// A byte string escaped for a JSON string body.
pub open spec fn spec_json_escape(b: Seq<u8>) -> Seq<u8>
    decreases b.len(),
{
    if b.len() == 0 {
        Seq::<u8>::empty()
    } else {
        spec_json_escape(b.drop_last()) + spec_escape_byte(b.last())
    }
}

/// A whole JSON string: quoted, with its UTF-8 bytes escaped.
pub open spec fn spec_json_string(s: Seq<char>) -> Seq<u8> {
    seq![34u8] + spec_json_escape(encode_utf8(s)) + seq![34u8]
}

/// `true` or `false`.
pub open spec fn spec_json_bool(v: bool) -> Seq<u8> {
    if v {
        seq![116u8, 114, 117, 101]
    } else {
        seq![102u8, 97, 108, 115, 101]
    }
}

/// `null`.
pub open spec fn spec_json_null() -> Seq<u8> {
    seq![110u8, 117, 108, 108]
}

/// A quoted field name followed by the colon.
pub open spec fn spec_json_key(name: Seq<u8>) -> Seq<u8> {
    seq![34u8] + name + seq![34u8, 58]
}

/// Append the rendering of one string byte.
pub fn push_escape_byte(out: &mut Vec<u8>, x: u8)
    ensures
        final(out)@ == old(out)@ + spec_escape_byte(x),
{
    if x == 34 {
        out.push(92);
        out.push(34);
    } else if x == 92 {
        out.push(92);
        out.push(92);
    } else if x == 8 {
        out.push(92);
        out.push(98);
    } else if x == 9 {
        out.push(92);
        out.push(116);
    } else if x == 10 {
        out.push(92);
        out.push(110);
    } else if x == 12 {
        out.push(92);
        out.push(102);
    } else if x == 13 {
        out.push(92);
        out.push(114);
    } else if x < 32 {
        out.push(92);
        out.push(117);
        out.push(48);
        out.push(48);
        let hi = x / 16;
        let lo = x % 16;
        out.push(if hi < 10 { 48 + hi } else { 87 + hi });
        out.push(if lo < 10 { 48 + lo } else { 87 + lo });
    } else {
        out.push(x);
    }
    assert(out@ =~= old(out)@ + spec_escape_byte(x));
}

/// Append a byte string escaped for a JSON string body.
pub fn push_json_escape(out: &mut Vec<u8>, b: &[u8])
    ensures
        final(out)@ == old(out)@ + spec_json_escape(b@),
{
    let mut i: usize = 0;
    while i < b.len()
        invariant
            i <= b@.len(),
            out@ == old(out)@ + spec_json_escape(b@.take(i as int)),
        decreases b@.len() - i,
    {
        proof {
            assert(b@.take(i + 1).drop_last() =~= b@.take(i as int));
        }
        push_escape_byte(out, b[i]);
        i = i + 1;
        assert(out@ =~= old(out)@ + spec_json_escape(b@.take(i as int)));
    }
    proof {
        assert(b@.take(b@.len() as int) =~= b@);
    }
}

/// Append a whole JSON string.
pub fn push_json_string(out: &mut Vec<u8>, s: &str)
    ensures
        final(out)@ == old(out)@ + spec_json_string(s@),
{
    out.push(34);
    push_json_escape(out, s.as_bytes());
    out.push(34);
    assert(out@ =~= old(out)@ + spec_json_string(s@));
}

/// Append `true` or `false`.
pub fn push_json_bool(out: &mut Vec<u8>, v: bool)
    ensures
        final(out)@ == old(out)@ + spec_json_bool(v),
{
    if v {
        out.push(116);
        out.push(114);
        out.push(117);
        out.push(101);
    } else {
        out.push(102);
        out.push(97);
        out.push(108);
        out.push(115);
        out.push(101);
    }
    assert(out@ =~= old(out)@ + spec_json_bool(v));
}

/// Append `null`.
pub fn push_json_null(out: &mut Vec<u8>)
    ensures
        final(out)@ == old(out)@ + spec_json_null(),
{
    out.push(110);
    out.push(117);
    out.push(108);
    out.push(108);
    assert(out@ =~= old(out)@ + spec_json_null());
}

/// Append a quoted field name and the colon.
pub fn push_json_key(out: &mut Vec<u8>, name: &str)
    ensures
        final(out)@ == old(out)@ + spec_json_key(name.spec_bytes()),
{
    out.push(34);
    crate::wire::push_slice(out, name.as_bytes());
    out.push(34);
    out.push(58);
    assert(out@ =~= old(out)@ + spec_json_key(name.spec_bytes()));
}

} // verus!
