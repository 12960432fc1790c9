//! What the console's number texts spell: decimal digits that read back as
//! the number, and hex digits taken from the upper-case alphabet.

use vstd::prelude::*;
use crate::text::{decimal, hex_digit, hex_u32_text, hex_u8_text, reading_text};

verus! {

/// Whether every byte of `s` is an ASCII decimal digit.
pub open spec fn all_digits(s: Seq<u8>) -> bool {
    forall|i: int| 0 <= i < s.len() ==> 48 <= #[trigger] s[i] <= 57
}

/// The number that the ASCII decimal digits of `s` spell, most significant
/// first.
pub open spec fn digits_value(s: Seq<u8>) -> int
    decreases s.len(),
{
    if s.len() == 0 {
        0
    } else {
        10 * digits_value(s.drop_last()) + (s.last() - 48)
    }
}

/// The upper-case hexadecimal digits "0123456789ABCDEF" in ASCII, in order of
/// value.
pub open spec fn hex_alphabet() -> Seq<u8> {
    seq![48u8, 49, 50, 51, 52, 53, 54, 55, 56, 57, 65, 66, 67, 68, 69, 70]
}

/// The decimal text of any number, however large, is a non-empty run of
/// ASCII digits without a leading zero (unless the number is zero) that reads
/// back as the number.
pub proof fn lemma_decimal_reads_back(n: nat)
    ensures
        decimal(n).len() >= 1,
        all_digits(decimal(n)),
        digits_value(decimal(n)) == n,
        decimal(n)[0] == 48 ==> n == 0,
        decimal(n).len() > 1 ==> decimal(n)[0] != 48,
    decreases n,
{
    let s = decimal(n);
    if n < 10 {
        assert(s.drop_last() =~= Seq::<u8>::empty());
        assert(digits_value(s.drop_last()) == 0);
        assert(s.last() == 48 + n);
    } else {
        lemma_decimal_reads_back(n / 10);
        let d = decimal(n / 10);
        assert(s.drop_last() =~= d);
        assert(s.last() == 48 + n % 10);
        assert(n == 10 * (n / 10) + n % 10);
        assert(s[0] == d[0]);
    }
    assert(digits_value(s) == 10 * digits_value(s.drop_last()) + (s.last() - 48));
}

/// Each hex digit is the character of the alphabet at its value: '0' to '9'
/// (ASCII 48 + d) below ten, 'A' to 'F' (ASCII 65 + d - 10) from ten to
/// fifteen.
pub proof fn lemma_hex_digit_alphabet(d: nat)
    requires
        d < 16,
    ensures
        hex_digit(d) == hex_alphabet()[d as int],
        d < 10 ==> hex_digit(d) == 48 + d,
        10 <= d ==> hex_digit(d) == 65 + (d - 10),
{
    let a = hex_alphabet();
    assert(a[0] == 48 && a[1] == 49 && a[2] == 50 && a[3] == 51 && a[4] == 52);
    assert(a[5] == 53 && a[6] == 54 && a[7] == 55 && a[8] == 56 && a[9] == 57);
    assert(a[10] == 65 && a[11] == 66 && a[12] == 67 && a[13] == 68 && a[14] == 69);
    assert(a[15] == 70);
}

/// A byte's hex text is the digit of its high nibble, then that of its low
/// nibble.
pub proof fn lemma_hex_u8_digits(v: u8)
    ensures
        hex_u8_text(v) == seq![hex_alphabet()[(v / 16) as int], hex_alphabet()[(v % 16) as int]],
{
    lemma_hex_digit_alphabet((v / 16) as nat);
    lemma_hex_digit_alphabet((v % 16) as nat);
    assert(hex_u8_text(v) =~= seq![hex_alphabet()[(v / 16) as int], hex_alphabet()[(v % 16) as int]]);
}

proof fn lemma_byte_nibbles(v: u32, p: int)
    requires
        p == 1 || p == 256 || p == 65536 || p == 16777216,
    ensures
        ((v as int / p) % 256) / 16 == (v as int / (p * 16)) % 16,
        ((v as int / p) % 256) % 16 == (v as int / p) % 16,
{
    let q = v as int / p;
    assert(q >= 0);
    vstd::arithmetic::div_mod::lemma_div_denominator(v as int, p, 16);
    vstd::arithmetic::div_mod::lemma_mod_mod(q, 16, 16);
    vstd::arithmetic::div_mod::lemma_mod_breakdown(q, 16, 16);
    assert(q % 256 == 16 * ((q / 16) % 16) + q % 16);
    assert((16 * ((q / 16) % 16) + q % 16) / 16 == (q / 16) % 16);
}

/// The hex text of byte `(v / p) % 256` of `v`.
proof fn lemma_hex_byte_of(v: u32, p: int)
    requires
        p == 1 || p == 256 || p == 65536 || p == 16777216,
    ensures
        hex_u8_text(((v as int / p) % 256) as u8) == seq![
            hex_alphabet()[(v as int / (p * 16)) % 16],
            hex_alphabet()[(v as int / p) % 16],
        ],
{
    let b = ((v as int / p) % 256) as u8;
    assert(b == (v as int / p) % 256);
    lemma_byte_nibbles(v, p);
    lemma_hex_u8_digits(b);
}

/// A `u32`'s hex text is eight digits, most significant first: digit `i` is
/// that of the nibble `(v / 16^(7 - i)) % 16`.
pub proof fn lemma_hex_u32_digits(v: u32)
    ensures
        ({
            let t = hex_u32_text(v);
            let a = hex_alphabet();
            &&& t.len() == 8
            &&& t[0] == a[((v / 268435456) % 16) as int]
            &&& t[1] == a[((v / 16777216) % 16) as int]
            &&& t[2] == a[((v / 1048576) % 16) as int]
            &&& t[3] == a[((v / 65536) % 16) as int]
            &&& t[4] == a[((v / 4096) % 16) as int]
            &&& t[5] == a[((v / 256) % 16) as int]
            &&& t[6] == a[((v / 16) % 16) as int]
            &&& t[7] == a[(v % 16) as int]
        }),
{
    let h3 = hex_u8_text((v / 16777216) as u8);
    let h2 = hex_u8_text(((v / 65536) % 256) as u8);
    let h1 = hex_u8_text(((v / 256) % 256) as u8);
    let h0 = hex_u8_text((v % 256) as u8);
    assert(v / 16777216 < 256);
    assert((v / 16777216) as u8 == ((v as int / 16777216) % 256) as u8);
    assert(v % 256 == (v as int / 1) % 256);
    lemma_hex_byte_of(v, 16777216);
    lemma_hex_byte_of(v, 65536);
    lemma_hex_byte_of(v, 256);
    lemma_hex_byte_of(v, 1);
    let t = hex_u32_text(v);
    assert(t == h3 + h2 + h1 + h0);
    assert(t[0] == h3[0] && t[1] == h3[1]);
    assert(t[2] == h2[0] && t[3] == h2[1]);
    assert(t[4] == h1[0] && t[5] == h1[1]);
    assert(t[6] == h0[0] && t[7] == h0[1]);
}

/// The text of a reading: a minus sign exactly when the integer part is
/// negative, then digits without a leading zero that read back as the
/// integer part's magnitude, a point, and digits without a leading zero that
/// read back as the magnitude of the tenths.
pub proof fn lemma_reading_text_shape(int_part: i32, tenths: i32)
    ensures
        exists|whole: Seq<u8>, frac: Seq<u8>|
            {
                &&& reading_text(int_part, tenths) == (if int_part < 0 {
                    seq![45u8]
                } else {
                    Seq::<u8>::empty()
                }) + whole + seq![46u8] + frac
                &&& whole.len() >= 1 && all_digits(whole)
                &&& whole.len() > 1 ==> whole[0] != 48
                &&& digits_value(whole) == if int_part < 0 {
                    -int_part
                } else {
                    int_part as int
                }
                &&& frac.len() >= 1 && all_digits(frac)
                &&& frac.len() > 1 ==> frac[0] != 48
                &&& digits_value(frac) == if tenths < 0 {
                    -tenths
                } else {
                    tenths as int
                }
            },
{
    let a: nat = (if int_part < 0 {
        -int_part
    } else {
        int_part as int
    }) as nat;
    let b: nat = (if tenths < 0 {
        -tenths
    } else {
        tenths as int
    }) as nat;
    lemma_decimal_reads_back(a);
    lemma_decimal_reads_back(b);
    let whole = decimal(a);
    let frac = decimal(b);
    assert(reading_text(int_part, tenths) == (if int_part < 0 {
        seq![45u8]
    } else {
        Seq::<u8>::empty()
    }) + whole + seq![46u8] + frac);
}

} // verus!
