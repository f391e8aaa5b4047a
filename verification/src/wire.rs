//! Byte-level primitives shared by the codec and the frame decoder:
//! big-endian integer fields and decimal renderings.

use vstd::prelude::*;
use vstd::utf8::{decode_utf8, valid_utf8};

verus! {

/// Relies on `String::from_utf8`: it succeeds exactly on valid UTF-8 input,
/// and the returned string decodes those very bytes.
#[verifier::external_body]
pub fn string_from_utf8(v: Vec<u8>) -> (r: Option<String>)
    ensures
        match r {
            Some(s) => valid_utf8(v@) && s@ == decode_utf8(v@),
            None => !valid_utf8(v@),
        },
{
    String::from_utf8(v).ok()
}

/// Copy the bytes of `s` between `from` and `to` into an owned buffer.
pub fn range_to_vec(s: &[u8], from: usize, to: usize) -> (r: Vec<u8>)
    requires
        from <= to <= s@.len(),
    ensures
        r@ == s@.subrange(from as int, to as int),
{
    let mut r: Vec<u8> = Vec::new();
    let mut i: usize = from;
    while i < to
        invariant
            from <= i <= to <= s@.len(),
            r@ == s@.subrange(from as int, i as int),
        decreases to - i,
    {
        r.push(s[i]);
        i = i + 1;
        assert(r@ =~= s@.subrange(from as int, i as int));
    }
    r
}

/// Big-endian bytes of a 32-bit unsigned value.
pub open spec fn spec_be_u32(v: u32) -> Seq<u8> {
    seq![
        (v as int / 0x100_0000 % 0x100) as u8,
        (v as int / 0x1_0000 % 0x100) as u8,
        (v as int / 0x100 % 0x100) as u8,
        (v as int % 0x100) as u8,
    ]
}

/// The value a big-endian byte sequence denotes.
pub open spec fn spec_be_val(b: Seq<u8>) -> int
    decreases b.len(),
{
    if b.len() == 0 {
        0
    } else {
        spec_be_val(b.drop_last()) * 0x100 + b.last()
    }
}

/// `spec_be_val` of one more byte, unfolded once.
pub proof fn lemma_be_val_unfold(b: Seq<u8>)
    requires
        b.len() > 0,
    ensures
        spec_be_val(b) == spec_be_val(b.drop_last()) * 0x100 + b.last(),
{
}

/// `spec_be_val` of two bytes, written out.
pub proof fn lemma_be_val2(b: Seq<u8>)
    requires
        b.len() == 2,
    ensures
        spec_be_val(b) == b[0] * 0x100 + b[1],
        0 <= spec_be_val(b) <= 0xFFFF,
{
    let b1 = b.drop_last();
    lemma_be_val_unfold(b);
    lemma_be_val_unfold(b1);
    assert(b1.drop_last() =~= Seq::<u8>::empty());
    assert(spec_be_val(Seq::<u8>::empty()) == 0);
    assert(b1.last() == b[0]);
}

/// `spec_be_val` of four bytes, written out.
pub proof fn lemma_be_val4(b: Seq<u8>)
    requires
        b.len() == 4,
    ensures
        spec_be_val(b) == b[0] * 0x100_0000 + b[1] * 0x1_0000 + b[2] * 0x100 + b[3],
        0 <= spec_be_val(b) <= 0xFFFF_FFFF,
{
    let b3 = b.drop_last();
    let b2 = b3.drop_last();
    lemma_be_val_unfold(b);
    lemma_be_val_unfold(b3);
    lemma_be_val2(b2);
    assert(b2[0] == b[0]);
    assert(b2[1] == b[1]);
    assert(b3.last() == b[2]);
}

/// `spec_be_val` of eight bytes, written out.
pub proof fn lemma_be_val8(b: Seq<u8>)
    requires
        b.len() == 8,
    ensures
        spec_be_val(b) == b[0] * 0x100_0000_0000_0000 + b[1] * 0x1_0000_0000_0000 + b[2]
            * 0x100_0000_0000 + b[3] * 0x1_0000_0000 + b[4] * 0x100_0000 + b[5] * 0x1_0000 + b[6]
            * 0x100 + b[7],
        0 <= spec_be_val(b) <= 0xFFFF_FFFF_FFFF_FFFF,
{
    let b7 = b.drop_last();
    let b6 = b7.drop_last();
    let b5 = b6.drop_last();
    let b4 = b5.drop_last();
    lemma_be_val_unfold(b);
    lemma_be_val_unfold(b7);
    lemma_be_val_unfold(b6);
    lemma_be_val_unfold(b5);
    lemma_be_val4(b4);
    assert(b4[0] == b[0] && b4[1] == b[1] && b4[2] == b[2] && b4[3] == b[3]);
    assert(b5.last() == b[4]);
    assert(b6.last() == b[5]);
    assert(b7.last() == b[6]);
}

/// Reading back the four big-endian bytes of `v` recovers `v`.
pub proof fn lemma_be_u32_round_trip(v: u32)
    ensures
        spec_be_val(spec_be_u32(v)) == v,
{
    lemma_be_val4(spec_be_u32(v));
    assert((v as int / 0x100_0000 % 0x100) * 0x100_0000 + (v as int / 0x1_0000 % 0x100) * 0x1_0000
        + (v as int / 0x100 % 0x100) * 0x100 + v as int % 0x100 == v as int) by {
        assert(v / 0x100_0000 % 0x100 == v / 0x100_0000) by (bit_vector);
        assert((v / 0x100_0000) * 0x100_0000 + (v / 0x1_0000 % 0x100) * 0x1_0000 + (v / 0x100
            % 0x100) * 0x100 + v % 0x100 == v) by (bit_vector);
    }
}

/// Append the 4 big-endian bytes of `v`.
pub fn push_be_u32(out: &mut Vec<u8>, v: u32)
    ensures
        final(out)@ == old(out)@ + spec_be_u32(v),
{
    out.push((v / 0x100_0000 % 0x100) as u8);
    out.push((v / 0x1_0000 % 0x100) as u8);
    out.push((v / 0x100 % 0x100) as u8);
    out.push((v % 0x100) as u8);
    assert(out@ =~= old(out)@ + spec_be_u32(v));
}

/// Big-endian bytes of a 16-bit unsigned value.
pub open spec fn spec_be_u16(v: u16) -> Seq<u8> {
    seq![(v as int / 0x100) as u8, (v as int % 0x100) as u8]
}

/// Append the 2 big-endian bytes of `v`.
pub fn push_be_u16(out: &mut Vec<u8>, v: u16)
    ensures
        final(out)@ == old(out)@ + spec_be_u16(v),
{
    out.push((v / 0x100) as u8);
    out.push((v % 0x100) as u8);
    assert(out@ =~= old(out)@ + spec_be_u16(v));
}

/// Reading back the two big-endian bytes of `v` recovers `v`.
pub proof fn lemma_be_u16_round_trip(v: u16)
    ensures
        spec_be_val(spec_be_u16(v)) == v,
{
    lemma_be_val2(spec_be_u16(v));
}

/// Read a big-endian `u32` field at `off`.
pub fn read_be_u32(b: &[u8], off: usize) -> (r: u32)
    requires
        off + 4 <= b@.len(),
    ensures
        r == spec_be_val(b@.subrange(off as int, off + 4)),
{
    proof {
        lemma_be_val4(b@.subrange(off as int, off + 4));
    }
    b[off] as u32 * 0x100_0000 + b[off + 1] as u32 * 0x1_0000 + b[off + 2] as u32 * 0x100 + b[off
        + 3] as u32
}

/// Read a big-endian `u16` field at `off`.
pub fn read_be_u16(b: &[u8], off: usize) -> (r: u16)
    requires
        off + 2 <= b@.len(),
    ensures
        r == spec_be_val(b@.subrange(off as int, off + 2)),
{
    proof {
        lemma_be_val2(b@.subrange(off as int, off + 2));
    }
    b[off] as u16 * 0x100 + b[off + 1] as u16
}

/// Read a big-endian `u64` field at `off`.
pub fn read_be_u64(b: &[u8], off: usize) -> (r: u64)
    requires
        off + 8 <= b@.len(),
    ensures
        r == spec_be_val(b@.subrange(off as int, off + 8)),
{
    proof {
        lemma_be_val8(b@.subrange(off as int, off + 8));
    }
    b[off] as u64 * 0x100_0000_0000_0000 + b[off + 1] as u64 * 0x1_0000_0000_0000 + b[off
        + 2] as u64 * 0x100_0000_0000 + b[off + 3] as u64 * 0x1_0000_0000 + b[off + 4] as u64
        * 0x100_0000 + b[off + 5] as u64 * 0x1_0000 + b[off + 6] as u64 * 0x100 + b[off + 7] as u64
}

/// The signed 64-bit value whose two's-complement big-endian bytes denote `n`.
pub open spec fn spec_i64_of_be(b: Seq<u8>) -> int {
    if spec_be_val(b) >= 0x8000_0000_0000_0000 {
        spec_be_val(b) - 0x1_0000_0000_0000_0000
    } else {
        spec_be_val(b)
    }
}

/// Read a big-endian two's-complement `i64` field at `off`.
pub fn read_be_i64(b: &[u8], off: usize) -> (r: i64)
    requires
        off + 8 <= b@.len(),
    ensures
        r == spec_i64_of_be(b@.subrange(off as int, off + 8)),
{
    proof {
        lemma_be_val8(b@.subrange(off as int, off + 8));
    }
    let n = read_be_u64(b, off);
    if n < 0x8000_0000_0000_0000 {
        n as i64
    } else {
        let m = (0xFFFF_FFFF_FFFF_FFFF - n) as i64;
        -1 - m
    }
}

/// The big-endian two's-complement bytes of a signed 64-bit value.
pub open spec fn spec_be_i64(v: i64) -> Seq<u8> {
    let n = if v >= 0 {
        v as int
    } else {
        v + 0x1_0000_0000_0000_0000
    };
    seq![
        (n / 0x100_0000_0000_0000 % 0x100) as u8,
        (n / 0x1_0000_0000_0000 % 0x100) as u8,
        (n / 0x100_0000_0000 % 0x100) as u8,
        (n / 0x1_0000_0000 % 0x100) as u8,
        (n / 0x100_0000 % 0x100) as u8,
        (n / 0x1_0000 % 0x100) as u8,
        (n / 0x100 % 0x100) as u8,
        (n % 0x100) as u8,
    ]
}

/// Append the 8 big-endian two's-complement bytes of `v`.
pub fn push_be_i64(out: &mut Vec<u8>, v: i64)
    ensures
        final(out)@ == old(out)@ + spec_be_i64(v),
{
    let n: u64 = if v >= 0 {
        v as u64
    } else {
        ((v as i128) + 0x1_0000_0000_0000_0000) as u64
    };
    out.push((n / 0x100_0000_0000_0000 % 0x100) as u8);
    out.push((n / 0x1_0000_0000_0000 % 0x100) as u8);
    out.push((n / 0x100_0000_0000 % 0x100) as u8);
    out.push((n / 0x1_0000_0000 % 0x100) as u8);
    out.push((n / 0x100_0000 % 0x100) as u8);
    out.push((n / 0x1_0000 % 0x100) as u8);
    out.push((n / 0x100 % 0x100) as u8);
    out.push((n % 0x100) as u8);
    assert(out@ =~= old(out)@ + spec_be_i64(v));
}

/// Reading back the eight two's-complement bytes of `v` recovers `v`.
pub proof fn lemma_be_i64_round_trip(v: i64)
    ensures
        spec_i64_of_be(spec_be_i64(v)) == v,
{
    let n: u64 = if v >= 0 {
        v as u64
    } else {
        (v + 0x1_0000_0000_0000_0000) as u64
    };
    lemma_be_val8(spec_be_i64(v));
    assert((n as int / 0x100_0000_0000_0000 % 0x100) * 0x100_0000_0000_0000 + (n as int
        / 0x1_0000_0000_0000 % 0x100) * 0x1_0000_0000_0000 + (n as int / 0x100_0000_0000 % 0x100)
        * 0x100_0000_0000 + (n as int / 0x1_0000_0000 % 0x100) * 0x1_0000_0000 + (n as int
        / 0x100_0000 % 0x100) * 0x100_0000 + (n as int / 0x1_0000 % 0x100) * 0x1_0000 + (n as int
        / 0x100 % 0x100) * 0x100 + n as int % 0x100 == n as int) by {
        assert(n / 0x100_0000_0000_0000 % 0x100 == n / 0x100_0000_0000_0000) by (bit_vector);
        assert((n / 0x100_0000_0000_0000) * 0x100_0000_0000_0000 + (n / 0x1_0000_0000_0000 % 0x100)
            * 0x1_0000_0000_0000 + (n / 0x100_0000_0000 % 0x100) * 0x100_0000_0000 + (n
            / 0x1_0000_0000 % 0x100) * 0x1_0000_0000 + (n / 0x100_0000 % 0x100) * 0x100_0000 + (n
            / 0x1_0000 % 0x100) * 0x1_0000 + (n / 0x100 % 0x100) * 0x100 + n % 0x100 == n)
            by (bit_vector);
    }
}

/// Rendering the value a 4-byte big-endian field denotes recovers the field.
pub proof fn lemma_be_u32_inverse(b: Seq<u8>)
    requires
        b.len() == 4,
    ensures
        spec_be_u32(spec_be_val(b) as u32) == b,
{
    lemma_be_val4(b);
    let x0 = b[0];
    let x1 = b[1];
    let x2 = b[2];
    let x3 = b[3];
    let v = (spec_be_val(b) as u32);
    assert(v == (x0 as u32) * 0x100_0000 + (x1 as u32) * 0x1_0000 + (x2 as u32) * 0x100 + (
    x3 as u32));
    assert(v / 0x100_0000 % 0x100 == x0 as u32 && v / 0x1_0000 % 0x100 == x1 as u32 && v / 0x100
        % 0x100 == x2 as u32 && v % 0x100 == x3 as u32) by (bit_vector)
        requires
            v == (x0 as u32) * 0x100_0000 + (x1 as u32) * 0x1_0000 + (x2 as u32) * 0x100 + (
            x3 as u32),
    ;
    assert(spec_be_u32(v) =~= b);
}

/// Rendering the value a 2-byte big-endian field denotes recovers the field.
pub proof fn lemma_be_u16_inverse(b: Seq<u8>)
    requires
        b.len() == 2,
    ensures
        spec_be_u16(spec_be_val(b) as u16) == b,
{
    lemma_be_val2(b);
    let x0 = b[0];
    let x1 = b[1];
    let v = (spec_be_val(b) as u16);
    assert(v == (x0 as u16) * 0x100 + (x1 as u16));
    assert(v / 0x100 == x0 as u16 && v % 0x100 == x1 as u16) by (bit_vector)
        requires
            v == (x0 as u16) * 0x100 + (x1 as u16),
    ;
    assert(spec_be_u16(v) =~= b);
}

/// Rendering the signed value an 8-byte two's-complement field denotes
/// recovers the field.
pub proof fn lemma_be_i64_inverse(b: Seq<u8>)
    requires
        b.len() == 8,
    ensures
        spec_be_i64(spec_i64_of_be(b) as i64) == b,
{
    lemma_be_val8(b);
    let x0 = b[0];
    let x1 = b[1];
    let x2 = b[2];
    let x3 = b[3];
    let x4 = b[4];
    let x5 = b[5];
    let x6 = b[6];
    let x7 = b[7];
    let n = (spec_be_val(b) as u64);
    assert(n == (x0 as u64) * 0x100_0000_0000_0000 + (x1 as u64) * 0x1_0000_0000_0000 + (x2 as u64)
        * 0x100_0000_0000 + (x3 as u64) * 0x1_0000_0000 + (x4 as u64) * 0x100_0000 + (x5 as u64)
        * 0x1_0000 + (x6 as u64) * 0x100 + (x7 as u64));
    assert(n / 0x100_0000_0000_0000 % 0x100 == x0 as u64 && n / 0x1_0000_0000_0000 % 0x100
        == x1 as u64 && n / 0x100_0000_0000 % 0x100 == x2 as u64 && n / 0x1_0000_0000 % 0x100
        == x3 as u64 && n / 0x100_0000 % 0x100 == x4 as u64 && n / 0x1_0000 % 0x100 == x5 as u64
        && n / 0x100 % 0x100 == x6 as u64 && n % 0x100 == x7 as u64) by (bit_vector)
        requires
            n == (x0 as u64) * 0x100_0000_0000_0000 + (x1 as u64) * 0x1_0000_0000_0000 + (
            x2 as u64) * 0x100_0000_0000 + (x3 as u64) * 0x1_0000_0000 + (x4 as u64) * 0x100_0000
                + (x5 as u64) * 0x1_0000 + (x6 as u64) * 0x100 + (x7 as u64),
    ;
    let v = spec_i64_of_be(b) as i64;
    assert(spec_be_i64(v) =~= b);
}

/// Append every byte of `s`.
pub fn push_slice(out: &mut Vec<u8>, s: &[u8])
    ensures
        final(out)@ == old(out)@ + s@,
{
    let mut i: usize = 0;
    while i < s.len()
        invariant
            i <= s@.len(),
            out@ == old(out)@ + s@.subrange(0, i as int),
        decreases s@.len() - i,
    {
        out.push(s[i]);
        i = i + 1;
        assert(out@ =~= old(out)@ + s@.subrange(0, i as int));
    }
    assert(s@.subrange(0, s@.len() as int) =~= s@);
}

/// Byte-for-byte equality of two slices.
pub fn slice_eq(a: &[u8], b: &[u8]) -> (r: bool)
    ensures
        r <==> a@ == b@,
{
    if a.len() != b.len() {
        return false;
    }
    let mut i: usize = 0;
    while i < a.len()
        invariant
            a@.len() == b@.len(),
            i <= a@.len(),
            forall|j: int| 0 <= j < i ==> a@[j] == b@[j],
        decreases a@.len() - i,
    {
        if a[i] != b[i] {
            return false;
        }
        i = i + 1;
    }
    proof {
        assert(a@ =~= b@);
    }
    true
}

/// The ASCII decimal digits of `n`, most significant first.
pub open spec fn spec_dec_u64(n: nat) -> Seq<u8>
    decreases n,
{
    if n < 10 {
        seq![(48 + n) as u8]
    } else {
        spec_dec_u64(n / 10) + seq![(48 + n % 10) as u8]
    }
}

/// Decimal renderings are non-empty and hold only digit bytes.
pub proof fn lemma_dec_digits(n: nat)
    ensures
        spec_dec_u64(n).len() >= 1,
        forall|i: int| 0 <= i < spec_dec_u64(n).len() ==> 48 <= #[trigger] spec_dec_u64(n)[i] < 58,
    decreases n,
{
    if n >= 10 {
        lemma_dec_digits(n / 10);
    }
}

/// The value a sequence of ASCII decimal digits denotes.
pub open spec fn spec_parse_dec(b: Seq<u8>) -> nat
    decreases b.len(),
{
    if b.len() == 0 {
        0
    } else {
        spec_parse_dec(b.drop_last()) * 10 + (if b.last() >= 48 {
            (b.last() - 48) as nat
        } else {
            0
        })
    }
}

/// Parsing the decimal rendering of `n` recovers `n`.
pub proof fn lemma_dec_round_trip(n: nat)
    ensures
        spec_parse_dec(spec_dec_u64(n)) == n,
    decreases n,
{
    if n < 10 {
        let d = spec_dec_u64(n);
        assert(d == seq![(48 + n) as u8]);
        assert(d.drop_last() =~= Seq::<u8>::empty());
        assert(spec_parse_dec(Seq::<u8>::empty()) == 0);
        assert(spec_parse_dec(d) == spec_parse_dec(d.drop_last()) * 10 + (d.last() - 48));
    } else {
        lemma_dec_round_trip(n / 10);
        let d = spec_dec_u64(n);
        assert(d == spec_dec_u64(n / 10) + seq![(48 + n % 10) as u8]);
        assert(d.drop_last() =~= spec_dec_u64(n / 10));
        assert(d.last() == (48 + n % 10) as u8);
        assert(spec_parse_dec(d) == spec_parse_dec(d.drop_last()) * 10 + (d.last() - 48));
        assert(spec_parse_dec(d) == (n / 10) * 10 + n % 10);
    }
}

/// Append the decimal digits of `n`.
pub fn push_dec_u64(out: &mut Vec<u8>, n: u64)
    ensures
        final(out)@ == old(out)@ + spec_dec_u64(n as nat),
    decreases n,
{
    if n < 10 {
        out.push(48 + n as u8);
        assert(out@ =~= old(out)@ + spec_dec_u64(n as nat));
    } else {
        push_dec_u64(out, n / 10);
        out.push(48 + (n % 10) as u8);
        assert(out@ =~= old(out)@ + spec_dec_u64(n as nat));
    }
}

/// The ASCII decimal digits of a signed value, with a leading minus sign
/// when it is negative.
pub open spec fn spec_dec_i64(v: int) -> Seq<u8> {
    if v < 0 {
        seq![45u8] + spec_dec_u64((-v) as nat)
    } else {
        spec_dec_u64(v as nat)
    }
}

/// Append the decimal digits of `v`, sign included.
pub fn push_dec_i64(out: &mut Vec<u8>, v: i64)
    ensures
        final(out)@ == old(out)@ + spec_dec_i64(v as int),
{
    if v >= 0 {
        push_dec_u64(out, v as u64);
    } else {
        out.push(45);
        let m: u64 = (-(v as i128)) as u64;
        push_dec_u64(out, m);
        assert(out@ =~= old(out)@ + spec_dec_i64(v as int));
    }
}

} // verus!
