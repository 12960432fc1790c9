//! ASCII rendering of numbers for the ground station's serial console.

use vstd::prelude::*;
use crate::codec::push_bytes;
use vstd::string::StringSliceAdditionalSpecFns;

verus! {

/// ASCII code of the digit zero.
pub const ASCII_ZERO: u8 = 48;

/// ASCII code of the letter `A`.
pub const ASCII_UPPER_A: u8 = 65;

/// ASCII code of the minus sign.
pub const ASCII_MINUS: u8 = 45;

/// ASCII code of the decimal point.
pub const ASCII_POINT: u8 = 46;

/// ASCII decimal digits of `n`, most significant first, without leading zeros.
pub open spec fn decimal(n: nat) -> Seq<u8>
    decreases n,
{
    if n < 10 {
        seq![(48 + n) as u8]
    } else {
        decimal(n / 10).push((48 + n % 10) as u8)
    }
}

/// Upper-case ASCII hex digit of `d` (`d < 16`).
pub open spec fn hex_digit(d: nat) -> u8 {
    if d < 10 {
        (48 + d) as u8
    } else {
        (65 + d - 10) as u8
    }
}

/// Two upper-case hex digits of a byte.
pub open spec fn hex_u8_text(v: u8) -> Seq<u8> {
    seq![hex_digit((v / 16) as nat), hex_digit((v % 16) as nat)]
}

/// Eight upper-case hex digits of `v`, most significant byte first.
pub open spec fn hex_u32_text(v: u32) -> Seq<u8> {
    hex_u8_text((v / 16777216) as u8) + hex_u8_text(((v / 65536) % 256) as u8) + hex_u8_text(
        ((v / 256) % 256) as u8,
    ) + hex_u8_text((v % 256) as u8)
}

/// Four decimal digits of `v` (`v < 10000`), with leading zeros.
pub open spec fn four_digits(v: nat) -> Seq<u8> {
    seq![
        (48 + v / 1000) as u8,
        (48 + (v / 100) % 10) as u8,
        (48 + (v / 10) % 10) as u8,
        (48 + v % 10) as u8,
    ]
}

/// Magnitude of `x`.
pub open spec fn magnitude(x: i32) -> nat {
    if x < 0 {
        (-x) as nat
    } else {
        x as nat
    }
}

/// Console text of a reading split into its integer part and its tenths:
/// a minus sign when the integer part is negative, the decimal digits of its
/// magnitude, a point, and the decimal digits of the magnitude of the tenths.
pub open spec fn reading_text(int_part: i32, tenths: i32) -> Seq<u8> {
    (if int_part < 0 {
        seq![45u8]
    } else {
        Seq::<u8>::empty()
    }) + decimal(magnitude(int_part)) + seq![46u8] + decimal(magnitude(tenths))
}

/// The decimal digits of a number of at least 10000 are those of its
/// ten-thousands followed by its last four digits.
pub proof fn lemma_decimal_split(v: nat)
    requires
        v >= 10000,
    ensures
        decimal(v) == decimal(v / 10000) + four_digits(v % 10000),
{
    let a = v / 10;
    let b = a / 10;
    let c = b / 10;
    let d = c / 10;
    assert(a >= 10 && b >= 10 && c >= 10);
    assert(d == v / 10000 && c % 10 == (v % 10000) / 1000 && b % 10 == ((v % 10000) / 100) % 10
        && a % 10 == ((v % 10000) / 10) % 10 && v % 10 == (v % 10000) % 10) by (nonlinear_arith)
        requires
            a == v / 10,
            b == a / 10,
            c == b / 10,
            d == c / 10,
            v >= 0,
    ;
    assert(decimal(v) == decimal(a).push((48 + v % 10) as u8));
    assert(decimal(a) == decimal(b).push((48 + a % 10) as u8));
    assert(decimal(b) == decimal(c).push((48 + b % 10) as u8));
    assert(decimal(c) == decimal(d).push((48 + c % 10) as u8));
    assert(decimal(v) =~= decimal(v / 10000) + four_digits(v % 10000));
}

/// Appends the decimal digits of `v`.
pub fn push_decimal(out: &mut Vec<u8>, v: u32)
    ensures
        final(out)@ == old(out)@ + decimal(v as nat),
    decreases v,
{
    if v >= 10 {
        push_decimal(out, v / 10);
    }
    out.push(ASCII_ZERO + (v % 10) as u8);
}

/// Appends the bytes of `s`.
pub fn push_str(out: &mut Vec<u8>, s: &str)
    ensures
        final(out)@ == old(out)@ + s.spec_bytes(),
{
    push_bytes(out, s.as_bytes());
}

/// Decimal text of a byte.
pub fn format_u8(val: u8) -> (r: Vec<u8>)
    ensures
        r@ == decimal(val as nat),
{
    let mut out: Vec<u8> = Vec::new();
    push_decimal(&mut out, val as u32);
    out
}

/// Appends the decimal digits of a `u16`.
pub fn push_u16_text(out: &mut Vec<u8>, val: u16)
    ensures
        final(out)@ == old(out)@ + decimal(val as nat),
{
    push_decimal(out, val as u32);
}

/// Decimal text of a `u16`.
pub fn format_u16(val: u16) -> (r: Vec<u8>)
    ensures
        r@ == decimal(val as nat),
{
    let mut out: Vec<u8> = Vec::new();
    push_u16_text(&mut out, val);
    out
}

/// Appends the decimal digits of a `u32`: up to 65535 as a `u16`, above it
/// the ten-thousands followed by the last four digits with leading zeros.
pub fn push_u32_text(out: &mut Vec<u8>, val: u32)
    ensures
        final(out)@ == old(out)@ + decimal(val as nat),
{
    if val <= 0xFFFF {
        push_u16_text(out, val as u16);
        return ;
    }
    let ghost start = out@;
    let hi = val / 10000;
    let lo = val % 10000;
    push_decimal(out, hi);
    out.push(ASCII_ZERO + (lo / 1000) as u8);
    out.push(ASCII_ZERO + ((lo / 100) % 10) as u8);
    out.push(ASCII_ZERO + ((lo / 10) % 10) as u8);
    out.push(ASCII_ZERO + (lo % 10) as u8);
    proof {
        lemma_decimal_split(val as nat);
    }
    assert(out@ =~= start + decimal(val as nat));
}

/// Decimal text of a `u32`.
pub fn format_u32(val: u32) -> (r: Vec<u8>)
    ensures
        r@ == decimal(val as nat),
{
    let mut out: Vec<u8> = Vec::new();
    push_u32_text(&mut out, val);
    out
}

fn hex_digit_of(d: u8) -> (r: u8)
    requires
        d < 16,
    ensures
        r == hex_digit(d as nat),
{
    if d < 10 {
        ASCII_ZERO + d
    } else {
        ASCII_UPPER_A + (d - 10)
    }
}

/// Appends `hex_u8_text(val)`.
pub fn push_hex_u8(out: &mut Vec<u8>, val: u8)
    ensures
        final(out)@ == old(out)@ + hex_u8_text(val),
{
    let ghost start = out@;
    out.push(hex_digit_of(val / 16));
    out.push(hex_digit_of(val % 16));
    assert(out@ =~= start + hex_u8_text(val));
}

/// Two upper-case hex digits of a byte.
pub fn format_hex_u8(val: u8) -> (r: Vec<u8>)
    ensures
        r@ == hex_u8_text(val),
{
    let mut out: Vec<u8> = Vec::new();
    push_hex_u8(&mut out, val);
    out
}

/// Appends `hex_u32_text(val)`.
pub fn push_hex_u32(out: &mut Vec<u8>, val: u32)
    ensures
        final(out)@ == old(out)@ + hex_u32_text(val),
{
    let ghost start = out@;
    push_hex_u8(out, (val / 16777216) as u8);
    push_hex_u8(out, ((val / 65536) % 256) as u8);
    push_hex_u8(out, ((val / 256) % 256) as u8);
    push_hex_u8(out, (val % 256) as u8);
    assert(out@ =~= start + hex_u32_text(val));
}

/// Eight upper-case hex digits of a `u32`.
pub fn format_hex_u32(val: u32) -> (r: Vec<u8>)
    ensures
        r@ == hex_u32_text(val),
{
    let mut out: Vec<u8> = Vec::new();
    push_hex_u32(&mut out, val);
    out
}

fn unsigned_magnitude(x: i32) -> (r: u32)
    ensures
        r == magnitude(x),
{
    if x < 0 {
        (-(x as i64)) as u32
    } else {
        x as u32
    }
}

/// Appends `reading_text(int_part, tenths)`.
pub fn push_reading_text(out: &mut Vec<u8>, int_part: i32, tenths: i32)
    ensures
        final(out)@ == old(out)@ + reading_text(int_part, tenths),
{
    let ghost start = out@;
    if int_part < 0 {
        out.push(ASCII_MINUS);
    }
    push_u32_text(out, unsigned_magnitude(int_part));
    out.push(ASCII_POINT);
    push_u32_text(out, unsigned_magnitude(tenths));
    assert(out@ =~= start + reading_text(int_part, tenths));
}

/// Console text of a reading given as integer part and tenths
/// (see `reading_text`).
pub fn format_reading(int_part: i32, tenths: i32) -> (r: Vec<u8>)
    ensures
        r@ == reading_text(int_part, tenths),
{
    let mut out: Vec<u8> = Vec::new();
    push_reading_text(&mut out, int_part, tenths);
    out
}

} // verus!
