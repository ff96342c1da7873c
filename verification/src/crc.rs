//! The CRC-16 checksum that closes a payload.
//!
//! The checksum is CRC-16/CCITT-FALSE: the remainder of the message, taken as a
//! polynomial over GF(2) and preceded by the seed `0xFFFF`, on division by
//! `x^16 + x^12 + x^5 + 1` (`0x1021`). The definition below spells this out
//! bit by bit; the executable code consumes a byte at a time through a table
//! of 256 entries, and is proved to compute the same value.

use vstd::prelude::*;
use vstd::utf8::encode_utf8;
use crate::crc_table::{lemma_table_entry, CRC16_CCITT_TABLE};
use crate::text::{
    ascii_upper, ascii_upper_all, byte_len, digit_byte, hex4, hex4_string, lemma_hex4_bytes,
    to_ascii_upper,
};
use crate::utf8::{
    lemma_ascii_bytes, lemma_ascii_suffix, lemma_byte_len_at_least_len, lemma_encode_utf8_concat,
};

verus! {

/// Seed of the checksum register.
pub const CRC16_SEED: u16 = 0xFFFF;

/// Generator polynomial, without its leading term.
pub const CRC16_POLYNOMIAL: u16 = 0x1021;

/// One shift of the register: its top bit leaves, and where that bit was set
/// the polynomial is subtracted.
pub open spec fn crc16_shift(crc: u16) -> u16 {
    if crc & 0x8000 != 0 {
        (crc << 1) ^ CRC16_POLYNOMIAL
    } else {
        crc << 1
    }
}

/// Eight shifts of the register.
pub open spec fn crc16_shift8(crc: u16) -> u16 {
    crc16_shift(
        crc16_shift(
            crc16_shift(
                crc16_shift(crc16_shift(crc16_shift(crc16_shift(crc16_shift(crc))))),
            ),
        ),
    )
}

/// The register after one more message byte.
pub open spec fn crc16_update(crc: u16, byte: u8) -> u16 {
    crc16_shift8(crc ^ ((byte as u16) << 8))
}

/// The register after all of `data`, starting from `crc`.
pub open spec fn crc16_fold(crc: u16, data: Seq<u8>) -> u16
    decreases data.len(),
{
    if data.len() == 0 {
        crc
    } else {
        crc16_update(crc16_fold(crc, data.drop_last()), data.last())
    }
}

/// The checksum of `data`.
pub open spec fn crc16(data: Seq<u8>) -> u16 {
    crc16_fold(CRC16_SEED, data)
}

/// Consuming a byte amounts to one table lookup: the byte and the high half
/// of the register select the entry, the low half moves up.
pub proof fn lemma_update_by_lookup(crc: u16, byte: u8)
    by (bit_vector)
    ensures
        ((crc >> 8) ^ (byte as u16)) & 0xFF < 256,
        crc16_update(crc, byte) == (crc << 8) ^ crc16_shift8(
            (((crc >> 8) ^ (byte as u16)) & 0xFF) << 8,
        ),
{
}

/// Advances the register by one byte.
fn crc16_step(crc: u16, byte: u8) -> (next: u16)
    ensures
        next == crc16_update(crc, byte),
{
    let index: u16 = ((crc >> 8) ^ u16::from(byte)) & 0xFF;
    proof {
        lemma_update_by_lookup(crc, byte);
        lemma_table_entry(index);
    }
    (crc << 8) ^ CRC16_CCITT_TABLE[index as usize]
}

/// The checksum of the first `end` bytes of `data`.
fn crc16_prefix(data: &[u8], end: usize) -> (crc: u16)
    requires
        end <= data@.len(),
    ensures
        crc == crc16(data@.subrange(0, end as int)),
{
    let mut crc: u16 = CRC16_SEED;
    let mut i: usize = 0;
    while i < end
        invariant
            i <= end <= data@.len(),
            crc == crc16(data@.subrange(0, i as int)),
        decreases end - i,
    {
        proof {
            let next = data@.subrange(0, i + 1);
            assert(next.drop_last() =~= data@.subrange(0, i as int));
        }
        crc = crc16_step(crc, data[i]);
        i += 1;
    }
    crc
}

/// Computes the checksum of `data` and writes it as four upper-case
/// hexadecimal digits.
#[must_use]
pub fn calculate_crc16(data: &str) -> (checksum: String)
    ensures
        checksum@ == hex4(crc16(encode_utf8(data@))),
{
    let bytes = data.as_bytes();
    let crc = crc16_prefix(bytes, bytes.len());
    assert(bytes@.subrange(0, bytes@.len() as int) =~= bytes@);
    hex4_string(crc)
}

/// A payload that carries its own checksum: its last eight bytes are the
/// checksum's identifier and length, `6304`, and four hexadecimal digits, in
/// either case, which spell the checksum of all that stands before them.
pub open spec fn has_valid_crc(payload: Seq<u8>) -> bool {
    let n = payload.len() as int;
    &&& n >= 8
    &&& payload.subrange(n - 8, n - 4) == encode_utf8("6304"@)
    &&& ascii_upper_all(payload.subrange(n - 4, n)) == encode_utf8(
        hex4(crc16(payload.subrange(0, n - 4))),
    )
}

/// ASCII upper case of a character.
pub open spec fn upper_char(c: char) -> char {
    if 'a' <= c <= 'z' {
        ((c as int) - 0x20) as char
    } else {
        c
    }
}

/// The judgement of `has_valid_crc` read on characters instead of bytes: the
/// text has eight characters at least, the last eight are `6304` and four
/// hexadecimal digits, in either case, and the digits spell the checksum of
/// all that stands before them.
pub open spec fn ends_in_crc(text: Seq<char>) -> bool {
    let n = text.len() as int;
    &&& n >= 8
    &&& text.subrange(n - 8, n - 4) == "6304"@
    &&& Seq::new(4, |i: int| upper_char(text[n - 4 + i])) == hex4(
        crc16(encode_utf8(text.subrange(0, n - 4))),
    )
}

/// Tells whether `qr_string` ends in the checksum of what precedes it. Text
/// that is too short, or that lacks the checksum's identifier and length
/// where they belong, does not.
#[must_use]
pub fn verify_crc(qr_string: &str) -> (valid: bool)
    ensures
        valid == has_valid_crc(encode_utf8(qr_string@)),
        valid == ends_in_crc(qr_string@),
{
    proof {
        lemma_valid_crc_by_characters(qr_string@);
    }
    let bytes = qr_string.as_bytes();
    let n = bytes.len();
    if n < 8 {
        return false;
    }
    let start = n - 8;
    let ghost header = bytes@.subrange(n - 8, n - 4);
    proof {
        reveal_strlit("6304");
        lemma_ascii_bytes("6304"@);
        assert(header[0] == bytes@[start as int]);
        assert(header[1] == bytes@[start + 1]);
        assert(header[2] == bytes@[start + 2]);
        assert(header[3] == bytes@[start + 3]);
    }
    if bytes[start] != 0x36 || bytes[start + 1] != 0x33 || bytes[start + 2] != 0x30 || bytes[start
        + 3] != 0x34 {
        return false;
    }
    assert(header =~= encode_utf8("6304"@));
    let crc = crc16_prefix(bytes, start + 4);
    let ghost given = ascii_upper_all(bytes@.subrange(n - 4, n as int));
    let ghost expected = encode_utf8(hex4(crc));
    proof {
        lemma_ascii_bytes(hex4(crc));
        assert(given[0] == ascii_upper(bytes@[start + 4]));
        assert(given[1] == ascii_upper(bytes@[start + 5]));
        assert(given[2] == ascii_upper(bytes@[start + 6]));
        assert(given[3] == ascii_upper(bytes@[start + 7]));
    }
    let valid = to_ascii_upper(bytes[start + 4]) == digit_byte((crc / 4096) as u8)
        && to_ascii_upper(bytes[start + 5]) == digit_byte(((crc / 256) % 16) as u8)
        && to_ascii_upper(bytes[start + 6]) == digit_byte(((crc / 16) % 16) as u8)
        && to_ascii_upper(bytes[start + 7]) == digit_byte((crc % 16) as u8);
    assert(valid == (given =~= expected));
    valid
}

/// `content` closed by the data object of its checksum: the identifier and
/// length `6304`, then the checksum of the content and of these four
/// characters.
pub open spec fn with_crc(content: Seq<char>) -> Seq<char> {
    content + "6304"@ + hex4(crc16(encode_utf8(content + "6304"@)))
}

/// Whatever the content, closing it with its checksum gives a payload that
/// verifies.
pub proof fn lemma_with_crc_verifies(content: Seq<char>)
    ensures
        has_valid_crc(encode_utf8(with_crc(content))),
{
    let covered = content + "6304"@;
    let crc = crc16(encode_utf8(covered));
    let payload = encode_utf8(with_crc(content));
    let n = payload.len() as int;
    reveal_strlit("6304");
    lemma_ascii_bytes("6304"@);
    lemma_hex4_bytes(crc);
    lemma_encode_utf8_concat(content, "6304"@);
    lemma_encode_utf8_concat(covered, hex4(crc));
    assert(payload.subrange(0, n - 4) =~= encode_utf8(covered));
    assert(payload.subrange(n - 4, n) =~= encode_utf8(hex4(crc)));
    assert(payload.subrange(n - 8, n - 4) =~= encode_utf8("6304"@));
}

/// The register after `a + b` is the register after `b`, started from the
/// register after `a`.
pub proof fn lemma_fold_concat(crc: u16, a: Seq<u8>, b: Seq<u8>)
    ensures
        crc16_fold(crc, a + b) == crc16_fold(crc16_fold(crc, a), b),
    decreases b.len(),
{
    if b.len() > 0 {
        lemma_fold_concat(crc, a, b.drop_last());
        assert((a + b).drop_last() =~= a + b.drop_last());
    }
}

/// One byte takes different registers to different registers, and different
/// bytes take one register to different registers.
pub proof fn lemma_update_injective(crc1: u16, byte1: u8, crc2: u16, byte2: u8)
    by (bit_vector)
    requires
        crc16_update(crc1, byte1) == crc16_update(crc2, byte2),
    ensures
        crc1 == crc2 <==> byte1 == byte2,
{
}

/// The same bytes take different registers to different registers.
pub proof fn lemma_fold_injective(crc1: u16, crc2: u16, data: Seq<u8>)
    requires
        crc16_fold(crc1, data) == crc16_fold(crc2, data),
    ensures
        crc1 == crc2,
    decreases data.len(),
{
    if data.len() > 0 {
        let rest = data.drop_last();
        lemma_update_injective(
            crc16_fold(crc1, rest),
            data.last(),
            crc16_fold(crc2, rest),
            data.last(),
        );
        lemma_fold_injective(crc1, crc2, rest);
    }
}

/// The checksum changes whenever one byte of the data is replaced by
/// another.
pub proof fn lemma_crc16_detects_byte_change(data: Seq<u8>, position: int, byte: u8)
    requires
        0 <= position < data.len(),
        byte != data[position],
    ensures
        crc16(data.update(position, byte)) != crc16(data),
{
    let head = data.subrange(0, position);
    let tail = data.subrange(position + 1, data.len() as int);
    let before = head.push(data[position]);
    let after = head.push(byte);
    assert(data =~= before + tail);
    assert(data.update(position, byte) =~= after + tail);
    assert(before.drop_last() =~= head);
    assert(after.drop_last() =~= head);
    lemma_fold_concat(CRC16_SEED, before, tail);
    lemma_fold_concat(CRC16_SEED, after, tail);
    if crc16(data.update(position, byte)) == crc16(data) {
        let register = crc16_fold(CRC16_SEED, head);
        lemma_fold_injective(
            crc16_update(register, data[position]),
            crc16_update(register, byte),
            tail,
        );
        lemma_update_injective(register, data[position], register, byte);
    }
}

/// Replacing one byte of a payload that verifies gives one that does not,
/// with a single exception: a checksum digit replaced by the same letter in
/// the other case, which the comparison does not tell apart.
pub proof fn lemma_single_byte_change_detected(payload: Seq<u8>, position: int, byte: u8)
    requires
        has_valid_crc(payload),
        0 <= position < payload.len(),
        byte != payload[position],
    ensures
        has_valid_crc(payload.update(position, byte)) <==> (position >= payload.len() - 4
            && ascii_upper(byte) == ascii_upper(payload[position])),
{
    let n = payload.len() as int;
    let changed = payload.update(position, byte);
    let data = payload.subrange(0, n - 4);
    let digits = payload.subrange(n - 4, n);
    lemma_hex4_bytes(crc16(data));
    if position < n - 4 {
        assert(changed.subrange(n - 4, n) =~= digits);
        assert(changed.subrange(0, n - 4) =~= data.update(position, byte));
        lemma_crc16_detects_byte_change(data, position, byte);
    } else {
        let k = position - (n - 4);
        assert(changed.subrange(0, n - 4) =~= data);
        assert(changed.subrange(n - 8, n - 4) =~= payload.subrange(n - 8, n - 4));
        assert(changed.subrange(n - 4, n) =~= digits.update(k, byte));
        assert(ascii_upper_all(digits)[k] == ascii_upper(payload[position]));
        if ascii_upper(byte) == ascii_upper(payload[position]) {
            assert(ascii_upper_all(digits.update(k, byte)) =~= ascii_upper_all(digits));
        }
    }
}

/// Counting and comparing characters gives the same judgement as bytes do:
/// text that passes either way ends in eight ASCII characters.
pub proof fn lemma_valid_crc_by_characters(text: Seq<char>)
    ensures
        has_valid_crc(encode_utf8(text)) <==> ends_in_crc(text),
{
    let bytes = encode_utf8(text);
    let m = bytes.len() as int;
    let n = text.len() as int;
    reveal_strlit("6304");
    lemma_ascii_bytes("6304"@);
    if has_valid_crc(bytes) {
        let data = bytes.subrange(0, m - 4);
        let crc = crc16(data);
        lemma_ascii_bytes(hex4(crc));
        assert forall|i: int| m - 8 <= i < m implies bytes[i] < 0x80 by {
            if i < m - 4 {
                assert(bytes[i] == bytes.subrange(m - 8, m - 4)[i - (m - 8)]);
            } else {
                let digits = bytes.subrange(m - 4, m);
                assert(ascii_upper_all(digits)[i - (m - 4)] == ascii_upper(bytes[i]));
            }
        }
        lemma_ascii_suffix(text, 8);
        lemma_ascii_suffix(text, 4);
        let tail = text.subrange(n - 8, n);
        let ends = bytes.subrange(m - 8, m);
        lemma_ascii_bytes(tail);
        assert forall|i: int| 0 <= i < 8 implies '\0' <= #[trigger] tail[i] <= '\u{7f}'
            && tail[i] as u8 == ends[i] by {
            assert(encode_utf8(tail)[i] == ends[i]);
        }
        assert(text.subrange(n - 8, n - 4) =~= "6304"@) by {
            let header = bytes.subrange(m - 8, m - 4);
            assert forall|i: int| 0 <= i < 4 implies text.subrange(n - 8, n - 4)[i]
                == "6304"@[i] by {
                assert(header[i] == ends[i]);
                assert(tail[i] == text[n - 8 + i]);
            }
        }
        let spelled = Seq::new(4, |i: int| upper_char(text[n - 4 + i]));
        assert forall|i: int| 0 <= i < 4 implies spelled[i] == hex4(crc)[i] by {
            let digits = bytes.subrange(m - 4, m);
            assert(tail[i + 4] == text[n - 4 + i]);
            assert(ascii_upper_all(digits)[i] == ascii_upper(digits[i]));
        }
        assert(spelled =~= hex4(crc));
    }
    if ends_in_crc(text) {
        let front = text.subrange(0, n - 4);
        let crc = crc16(encode_utf8(front));
        let before = text.subrange(0, n - 8);
        let header = text.subrange(n - 8, n - 4);
        let digits = text.subrange(n - 4, n);
        let spelled = Seq::new(4, |i: int| upper_char(text[n - 4 + i]));
        lemma_ascii_bytes(hex4(crc));
        assert forall|i: int| 0 <= i < 4 implies '\0' <= #[trigger] digits[i] <= '\u{7f}'
            && ascii_upper(digits[i] as u8) == hex4(crc)[i] as u8 by {
            assert(spelled[i] == hex4(crc)[i]);
            assert(digits[i] == text[n - 4 + i]);
        }
        lemma_ascii_bytes(digits);
        assert(text =~= front + digits);
        assert(front =~= before + header);
        lemma_encode_utf8_concat(front, digits);
        lemma_encode_utf8_concat(before, header);
        assert(bytes.subrange(0, m - 4) =~= encode_utf8(front));
        assert(bytes.subrange(m - 8, m - 4) =~= encode_utf8("6304"@));
        assert(bytes.subrange(m - 4, m) =~= encode_utf8(digits));
        assert(ascii_upper_all(encode_utf8(digits)) =~= encode_utf8(hex4(crc)));
    }
}

/// The same for text: where an ASCII character of a payload that verifies is
/// replaced by another ASCII character, the payload verifies no longer,
/// unless a checksum digit was replaced by the same letter in the other
/// case.
pub proof fn lemma_single_character_change_detected(text: Seq<char>, position: int, c: char)
    requires
        ends_in_crc(text),
        0 <= position < text.len(),
        '\0' <= text[position] <= '\u{7f}',
        '\0' <= c <= '\u{7f}',
        c != text[position],
    ensures
        ends_in_crc(text.update(position, c)) <==> (position >= text.len() - 4 && upper_char(c)
            == upper_char(text[position])),
{
    let n = text.len() as int;
    let replaced = text[position];
    let before = text.take(position);
    let after = text.skip(position + 1);
    let bytes = encode_utf8(text);
    let at = byte_len(before) as int;
    assert(text =~= before + seq![replaced] + after);
    assert(text.update(position, c) =~= before + seq![c] + after);
    lemma_ascii_bytes(seq![replaced]);
    lemma_ascii_bytes(seq![c]);
    lemma_encode_utf8_concat(before, seq![replaced]);
    lemma_encode_utf8_concat(before + seq![replaced], after);
    lemma_encode_utf8_concat(before, seq![c]);
    lemma_encode_utf8_concat(before + seq![c], after);
    assert(encode_utf8(text.update(position, c)) =~= bytes.update(at, c as u8));
    lemma_valid_crc_by_characters(text);
    lemma_valid_crc_by_characters(text.update(position, c));
    lemma_single_byte_change_detected(bytes, at, c as u8);
    if position >= n - 4 {
        let crc = crc16(encode_utf8(text.subrange(0, n - 4)));
        let spelled = Seq::new(4, |i: int| upper_char(text[n - 4 + i]));
        assert forall|i: int| 0 <= i < after.len() implies '\0' <= #[trigger] after[i]
            <= '\u{7f}' by {
            let k = position + 1 + i - (n - 4);
            assert(spelled[k] == hex4(crc)[k]);
        }
        lemma_ascii_bytes(after);
    } else {
        lemma_byte_len_at_least_len(after);
    }
}

} // verus!
