//! Little-endian field encoding, as laid out by the packed frame structs.

use vstd::prelude::*;

verus! {

/// The two bytes of `v`, least significant first.
pub open spec fn le_u16(v: u16) -> Seq<u8> {
    seq![(v % 256) as u8, (v / 256) as u8]
}

/// The four bytes of `v`, least significant first.
pub open spec fn le_u32(v: u32) -> Seq<u8> {
    seq![
        (v % 256) as u8,
        ((v / 256) % 256) as u8,
        ((v / 65536) % 256) as u8,
        (v / 16777216) as u8,
    ]
}

/// Two's complement bit pattern of `v`.
pub open spec fn i16_bits(v: i16) -> u16 {
    if v < 0 {
        (v + 65536) as u16
    } else {
        v as u16
    }
}

/// The two bytes of `v` in two's complement, least significant first.
pub open spec fn le_i16(v: i16) -> Seq<u8> {
    le_u16(i16_bits(v))
}

/// The `u16` stored little-endian at `s[i..i + 2]`.
pub open spec fn u16_at(s: Seq<u8>, i: int) -> u16 {
    (s[i] + 256 * s[i + 1]) as u16
}

/// The `u32` stored little-endian at `s[i..i + 4]`.
pub open spec fn u32_at(s: Seq<u8>, i: int) -> u32 {
    (s[i] + 256 * s[i + 1] + 65536 * s[i + 2] + 16777216 * s[i + 3]) as u32
}

/// The `i16` stored little-endian in two's complement at `s[i..i + 2]`.
pub open spec fn i16_at(s: Seq<u8>, i: int) -> i16 {
    let u = u16_at(s, i);
    if u >= 32768 {
        (u - 65536) as i16
    } else {
        u as i16
    }
}

/// Reading back what `le_u16` wrote gives the value.
pub proof fn lemma_u16_roundtrip(v: u16, s: Seq<u8>, i: int)
    requires
        0 <= i,
        i + 2 <= s.len(),
        s.subrange(i, i + 2) == le_u16(v),
    ensures
        u16_at(s, i) == v,
{
    assert(s[i] == le_u16(v)[0]);
    assert(s[i + 1] == le_u16(v)[1]);
}

/// Reading back what `le_u32` wrote gives the value.
pub proof fn lemma_u32_roundtrip(v: u32, s: Seq<u8>, i: int)
    requires
        0 <= i,
        i + 4 <= s.len(),
        s.subrange(i, i + 4) == le_u32(v),
    ensures
        u32_at(s, i) == v,
{
    assert(s[i] == le_u32(v)[0]);
    assert(s[i + 1] == le_u32(v)[1]);
    assert(s[i + 2] == le_u32(v)[2]);
    assert(s[i + 3] == le_u32(v)[3]);
    let x = v as int;
    assert(x == x % 256 + 256 * ((x / 256) % 256) + 65536 * ((x / 65536) % 256) + 16777216 * (x
        / 16777216)) by (nonlinear_arith)
        requires
            0 <= x < 4294967296,
    ;
}

/// Reading back what `le_i16` wrote gives the value.
pub proof fn lemma_i16_roundtrip(v: i16, s: Seq<u8>, i: int)
    requires
        0 <= i,
        i + 2 <= s.len(),
        s.subrange(i, i + 2) == le_i16(v),
    ensures
        i16_at(s, i) == v,
{
    lemma_u16_roundtrip(i16_bits(v), s, i);
}

/// Appends `v` little-endian.
pub fn push_u16_le(out: &mut Vec<u8>, v: u16)
    ensures
        final(out)@ == old(out)@ + le_u16(v),
{
    out.push((v % 256) as u8);
    out.push((v / 256) as u8);
}

/// Appends `v` little-endian.
pub fn push_u32_le(out: &mut Vec<u8>, v: u32)
    ensures
        final(out)@ == old(out)@ + le_u32(v),
{
    out.push((v % 256) as u8);
    out.push(((v / 256) % 256) as u8);
    out.push(((v / 65536) % 256) as u8);
    out.push((v / 16777216) as u8);
}

/// Appends `v` little-endian in two's complement.
pub fn push_i16_le(out: &mut Vec<u8>, v: i16)
    ensures
        final(out)@ == old(out)@ + le_i16(v),
{
    let bits: u16 = if v < 0 {
        (v as i32 + 65536) as u16
    } else {
        v as u16
    };
    push_u16_le(out, bits);
}

/// Appends every byte of `bytes`.
pub fn push_bytes(out: &mut Vec<u8>, bytes: &[u8])
    ensures
        final(out)@ == old(out)@ + bytes@,
{
    let ghost start = out@;
    let mut i: usize = 0;
    while i < bytes.len()
        invariant
            i <= bytes.len(),
            out@ == start + bytes@.subrange(0, i as int),
        decreases bytes.len() - i,
    {
        out.push(bytes[i]);
        i = i + 1;
        assert(bytes@.subrange(0, i as int) == bytes@.subrange(0, i - 1) + seq![bytes@[i - 1]]);
    }
    assert(bytes@.subrange(0, bytes.len() as int) == bytes@);
}

/// The `u16` stored little-endian at `buf[i..i + 2]`.
pub fn read_u16_le(buf: &[u8], i: usize) -> (r: u16)
    requires
        i + 2 <= buf.len(),
    ensures
        r == u16_at(buf@, i as int),
{
    buf[i] as u16 + 256 * (buf[i + 1] as u16)
}

/// The `u32` stored little-endian at `buf[i..i + 4]`.
pub fn read_u32_le(buf: &[u8], i: usize) -> (r: u32)
    requires
        i + 4 <= buf.len(),
    ensures
        r == u32_at(buf@, i as int),
{
    buf[i] as u32 + 256 * (buf[i + 1] as u32) + 65536 * (buf[i + 2] as u32) + 16777216 * (buf[i
        + 3] as u32)
}

/// The `i16` stored little-endian in two's complement at `buf[i..i + 2]`.
pub fn read_i16_le(buf: &[u8], i: usize) -> (r: i16)
    requires
        i + 2 <= buf.len(),
    ensures
        r == i16_at(buf@, i as int),
{
    let u = read_u16_le(buf, i);
    if u >= 32768 {
        (u as i32 - 65536) as i16
    } else {
        u as i16
    }
}

} // verus!
