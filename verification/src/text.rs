//! Digits and byte lengths: the building blocks of every length field and of
//! the checksum's textual form.

use vstd::prelude::*;
use vstd::string::is_ascii_spec_bytes;
use vstd::utf8::{encode_utf8, is_ascii_chars};
use crate::utf8::lemma_ascii_bytes;

verus! {

/// Number of bytes that `text` occupies once encoded as UTF-8.
pub open spec fn byte_len(text: Seq<char>) -> nat {
    encode_utf8(text).len()
}

/// Length of `text` in bytes.
pub fn byte_length(text: &str) -> (n: usize)
    ensures
        n == byte_len(text@),
{
    text.as_bytes().len()
}

/// The character that writes the digit `d` (0 to 15), letters in upper case.
pub open spec fn digit_char(d: nat) -> char {
    if d < 10 {
        (48 + d) as char
    } else {
        (55 + d) as char
    }
}

/// Decimal notation of `n`, without leading zeros.
pub open spec fn decimal(n: nat) -> Seq<char>
    decreases n,
{
    if n < 10 {
        seq![digit_char(n)]
    } else {
        decimal(n / 10).push(digit_char(n % 10))
    }
}

/// Decimal notation of `n`, padded with a zero to at least two digits.
pub open spec fn zero_pad2(n: nat) -> Seq<char> {
    if n < 10 {
        seq!['0', digit_char(n)]
    } else {
        decimal(n)
    }
}

/// The four upper-case hexadecimal digits of a 16-bit value, most significant first.
pub open spec fn hex4(v: u16) -> Seq<char> {
    seq![
        digit_char((v / 4096) as nat),
        digit_char(((v / 256) % 16) as nat),
        digit_char(((v / 16) % 16) as nat),
        digit_char((v % 16) as nat),
    ]
}

/// One digit (0 to 15) as a one-character string.
pub(crate) fn digit_str(d: u8) -> (s: &'static str)
    requires
        d < 16,
    ensures
        s@ == seq![digit_char(d as nat)],
{
    proof {
        reveal_strlit("0");
        reveal_strlit("1");
        reveal_strlit("2");
        reveal_strlit("3");
        reveal_strlit("4");
        reveal_strlit("5");
        reveal_strlit("6");
        reveal_strlit("7");
        reveal_strlit("8");
        reveal_strlit("9");
        reveal_strlit("A");
        reveal_strlit("B");
        reveal_strlit("C");
        reveal_strlit("D");
        reveal_strlit("E");
        reveal_strlit("F");
    }
    let s = match d {
        0 => "0",
        1 => "1",
        2 => "2",
        3 => "3",
        4 => "4",
        5 => "5",
        6 => "6",
        7 => "7",
        8 => "8",
        9 => "9",
        10 => "A",
        11 => "B",
        12 => "C",
        13 => "D",
        14 => "E",
        _ => "F",
    };
    s
}

/// Writes `n` in decimal.
pub fn decimal_string(n: usize) -> (s: String)
    ensures
        s@ == decimal(n as nat),
    decreases n,
{
    if n < 10 {
        digit_str(n as u8).to_owned()
    } else {
        let mut s = decimal_string(n / 10);
        s.append(digit_str((n % 10) as u8));
        s
    }
}

/// Writes `n` in decimal with at least two digits.
pub fn zero_pad2_string(n: usize) -> (s: String)
    ensures
        s@ == zero_pad2(n as nat),
{
    if n < 10 {
        let mut s = "0".to_owned();
        s.append(digit_str(n as u8));
        proof {
            reveal_strlit("0");
        }
        s
    } else {
        decimal_string(n)
    }
}

/// Writes a 16-bit value as four upper-case hexadecimal digits.
pub fn hex4_string(v: u16) -> (s: String)
    ensures
        s@ == hex4(v),
{
    let mut s = digit_str((v / 4096) as u8).to_owned();
    s.append(digit_str(((v / 256) % 16) as u8));
    s.append(digit_str(((v / 16) % 16) as u8));
    s.append(digit_str((v % 16) as u8));
    assert(s@ =~= hex4(v));
    s
}

/// The byte that writes the digit `d` (0 to 15) in ASCII.
pub(crate) fn digit_byte(d: u8) -> (b: u8)
    requires
        d < 16,
    ensures
        b == digit_char(d as nat) as u8,
{
    if d < 10 {
        0x30 + d
    } else {
        0x37 + d
    }
}

/// An ASCII decimal digit.
pub open spec fn is_ascii_digit(c: char) -> bool {
    '0' <= c <= '9'
}

/// An ASCII letter or decimal digit.
pub open spec fn is_ascii_alphanumeric(c: char) -> bool {
    ||| '0' <= c <= '9'
    ||| 'A' <= c <= 'Z'
    ||| 'a' <= c <= 'z'
}

/// Every character of `text` is an ASCII decimal digit.
pub open spec fn all_ascii_digits(text: Seq<char>) -> bool {
    forall|i: int| 0 <= i < text.len() ==> is_ascii_digit(#[trigger] text[i])
}

/// Every character of `text` is an ASCII letter or decimal digit.
pub open spec fn all_ascii_alphanumeric(text: Seq<char>) -> bool {
    forall|i: int| 0 <= i < text.len() ==> is_ascii_alphanumeric(#[trigger] text[i])
}

/// Tells whether `text` consists of ASCII decimal digits only.
pub fn is_all_ascii_digits(text: &str) -> (ok: bool)
    ensures
        ok == all_ascii_digits(text@),
{
    if !text.is_ascii() {
        return false;
    }
    let bytes = text.as_bytes();
    proof {
        is_ascii_spec_bytes(text);
    }
    let mut i: usize = 0;
    while i < bytes.len()
        invariant
            i <= bytes@.len(),
            bytes@.len() == text@.len(),
            is_ascii_chars(text@),
            forall|j: int| 0 <= j < bytes@.len() ==> bytes@[j] == text@[j] as u8,
            forall|j: int| 0 <= j < i ==> is_ascii_digit(#[trigger] text@[j]),
        decreases bytes@.len() - i,
    {
        let b = bytes[i];
        if b < 0x30 || b > 0x39 {
            return false;
        }
        i += 1;
    }
    true
}

/// Tells whether `text` consists of ASCII letters and decimal digits only.
pub fn is_all_ascii_alphanumeric(text: &str) -> (ok: bool)
    ensures
        ok == all_ascii_alphanumeric(text@),
{
    if !text.is_ascii() {
        return false;
    }
    let bytes = text.as_bytes();
    proof {
        is_ascii_spec_bytes(text);
    }
    let mut i: usize = 0;
    while i < bytes.len()
        invariant
            i <= bytes@.len(),
            bytes@.len() == text@.len(),
            is_ascii_chars(text@),
            forall|j: int| 0 <= j < bytes@.len() ==> bytes@[j] == text@[j] as u8,
            forall|j: int| 0 <= j < i ==> is_ascii_alphanumeric(#[trigger] text@[j]),
        decreases bytes@.len() - i,
    {
        let b = bytes[i];
        let digit = 0x30 <= b && b <= 0x39;
        let upper = 0x41 <= b && b <= 0x5A;
        let lower = 0x61 <= b && b <= 0x7A;
        if !(digit || upper || lower) {
            return false;
        }
        i += 1;
    }
    true
}

/// ASCII upper case of a byte: a small letter becomes its capital, any other
/// byte stays.
pub open spec fn ascii_upper(b: u8) -> u8 {
    if 0x61 <= b <= 0x7A {
        (b - 0x20) as u8
    } else {
        b
    }
}

/// ASCII upper case of every byte of `bytes`.
pub open spec fn ascii_upper_all(bytes: Seq<u8>) -> Seq<u8> {
    Seq::new(bytes.len(), |i: int| ascii_upper(bytes[i]))
}

/// ASCII upper case of a byte.
pub fn to_ascii_upper(b: u8) -> (upper: u8)
    ensures
        upper == ascii_upper(b),
{
    if 0x61 <= b && b <= 0x7A {
        b - 0x20
    } else {
        b
    }
}

/// The four digits of `hex4` are ASCII.
pub proof fn lemma_hex4_ascii(v: u16)
    ensures
        is_ascii_chars(hex4(v)),
        hex4(v).len() == 4,
        byte_len(hex4(v)) == 4,
{
    assert(is_ascii_chars(hex4(v)));
    lemma_ascii_bytes(hex4(v));
}

/// Different digits are written with different characters.
pub proof fn lemma_digit_char_injective(a: nat, b: nat)
    requires
        a < 16,
        b < 16,
        digit_char(a) == digit_char(b),
    ensures
        a == b,
{
}

/// A 16-bit value is made of the four digits that `hex4` writes.
pub proof fn lemma_hex4_digits(v: u16)
    by (bit_vector)
    ensures
        v / 4096 < 16,
        (v / 256) % 16 < 16,
        (v / 16) % 16 < 16,
        v % 16 < 16,
        v == (v / 4096) * 4096 + ((v / 256) % 16) * 256 + ((v / 16) % 16) * 16 + v % 16,
{
}

/// The digits of `hex4` tell the value: two values with the same digits are
/// the same value.
pub proof fn lemma_hex4_injective(v: u16, w: u16)
    requires
        hex4(v) == hex4(w),
    ensures
        v == w,
{
    lemma_hex4_digits(v);
    lemma_hex4_digits(w);
    assert(hex4(v)[0] == hex4(w)[0]);
    assert(hex4(v)[1] == hex4(w)[1]);
    assert(hex4(v)[2] == hex4(w)[2]);
    assert(hex4(v)[3] == hex4(w)[3]);
    lemma_digit_char_injective((v / 4096) as nat, (w / 4096) as nat);
    lemma_digit_char_injective(((v / 256) % 16) as nat, ((w / 256) % 16) as nat);
    lemma_digit_char_injective(((v / 16) % 16) as nat, ((w / 16) % 16) as nat);
    lemma_digit_char_injective((v % 16) as nat, (w % 16) as nat);
}

/// The bytes of `hex4` are digits and capital letters, which upper case
/// leaves as they are, and they tell the value as the digits do.
pub proof fn lemma_hex4_bytes(v: u16)
    ensures
        encode_utf8(hex4(v)).len() == 4,
        ascii_upper_all(encode_utf8(hex4(v))) == encode_utf8(hex4(v)),
        forall|w: u16| encode_utf8(hex4(w)) == encode_utf8(hex4(v)) ==> w == v,
{
    lemma_ascii_bytes(hex4(v));
    let bytes = encode_utf8(hex4(v));
    assert forall|w: u16| encode_utf8(hex4(w)) == bytes implies w == v by {
        lemma_ascii_bytes(hex4(w));
        let other = encode_utf8(hex4(w));
        assert(other[0] == bytes[0]);
        assert(other[1] == bytes[1]);
        assert(other[2] == bytes[2]);
        assert(other[3] == bytes[3]);
        lemma_hex4_injective(w, v);
    }
}

} // verus!
