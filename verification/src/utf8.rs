//! Facts about the UTF-8 encoding of text that the length fields and the
//! checksum rest on.

use vstd::prelude::*;
use vstd::utf8::{
    char_is_scalar, char_u32_cast, encode_scalar, encode_utf8, is_ascii_chars,
    is_ascii_chars_encode_utf8, is_scalar, last_continuation_byte,
};
use crate::text::byte_len;

verus! {

/// UTF-8 encoding distributes over concatenation.
pub proof fn lemma_encode_utf8_concat(a: Seq<char>, b: Seq<char>)
    ensures
        encode_utf8(a + b) == encode_utf8(a) + encode_utf8(b),
    decreases a.len(),
{
    if a.len() > 0 {
        lemma_encode_utf8_concat(a.drop_first(), b);
        assert((a + b).drop_first() =~= a.drop_first() + b);
    }
}

/// ASCII text takes one byte for each character: the character's code.
pub proof fn lemma_ascii_bytes(text: Seq<char>)
    requires
        is_ascii_chars(text),
    ensures
        encode_utf8(text) == Seq::new(text.len(), |i: int| text[i] as u8),
{
    is_ascii_chars_encode_utf8(text);
}

/// Every character takes one byte at least.
pub proof fn lemma_byte_len_at_least_len(text: Seq<char>)
    ensures
        byte_len(text) >= text.len(),
    decreases text.len(),
{
    if text.len() > 0 {
        lemma_byte_len_at_least_len(text.drop_first());
    }
}

/// The byte that ends an encoding of more than one byte is `0x80` or above.
proof fn lemma_continuation_byte(scalar: u32)
    by (bit_vector)
    ensures
        last_continuation_byte(scalar) >= 0x80,
{
}

/// A character whose encoding ends in a byte below `0x80` is ASCII.
proof fn lemma_scalar_ending_in_ascii(scalar: u32)
    requires
        is_scalar(scalar),
        encode_scalar(scalar).last() < 0x80,
    ensures
        scalar <= 0x7F,
{
    lemma_continuation_byte(scalar);
}

/// Where the encoding of `text` ends in a byte below `0x80`, the last
/// character of `text` is ASCII and that byte is its code.
pub proof fn lemma_last_byte_ascii(text: Seq<char>)
    requires
        encode_utf8(text).len() > 0,
        encode_utf8(text).last() < 0x80,
    ensures
        text.len() > 0,
        '\0' <= text.last() <= '\u{7f}',
        encode_utf8(text) == encode_utf8(text.drop_last()).push(text.last() as u8),
{
    let c = text.last();
    let front = text.drop_last();
    assert(text =~= front + seq![c]);
    lemma_encode_utf8_concat(front, seq![c]);
    reveal_with_fuel(encode_utf8, 2);
    char_is_scalar(c);
    lemma_scalar_ending_in_ascii(c as u32);
    char_u32_cast(c, c as u32);
    lemma_ascii_bytes(seq![c]);
}

/// Where the encoding of `text` ends in `k` bytes below `0x80`, `text` ends
/// in `k` ASCII characters, and these bytes are their codes.
pub proof fn lemma_ascii_suffix(text: Seq<char>, k: nat)
    requires
        k <= encode_utf8(text).len(),
        forall|i: int|
            encode_utf8(text).len() - k <= i < encode_utf8(text).len() ==> encode_utf8(text)[i]
                < 0x80,
    ensures
        k <= text.len(),
        is_ascii_chars(text.subrange(text.len() - k, text.len() as int)),
        encode_utf8(text.subrange(0, text.len() - k)) == encode_utf8(text).subrange(
            0,
            encode_utf8(text).len() - k,
        ),
        encode_utf8(text.subrange(text.len() - k, text.len() as int)) == encode_utf8(
            text,
        ).subrange(encode_utf8(text).len() - k, encode_utf8(text).len() as int),
    decreases k,
{
    let bytes = encode_utf8(text);
    let n = text.len() as int;
    if k == 0 {
        assert(text.subrange(0, n) =~= text);
    } else {
        lemma_last_byte_ascii(text);
        let front = text.drop_last();
        let c = text.last();
        assert forall|i: int|
            encode_utf8(front).len() - (k - 1) <= i < encode_utf8(front).len() implies encode_utf8(
            front,
        )[i] < 0x80 by {
            assert(encode_utf8(front)[i] == bytes[i]);
        }
        lemma_ascii_suffix(front, (k - 1) as nat);
        let tail = text.subrange(n - k, n);
        let front_tail = front.subrange(front.len() - (k - 1), front.len() as int);
        assert(tail =~= front_tail.push(c));
        assert(text.subrange(0, n - k) =~= front.subrange(0, front.len() - (k - 1)));
        assert forall|i: int| 0 <= i < tail.len() implies '\0' <= #[trigger] tail[i]
            <= '\u{7f}' by {
            if i < k - 1 {
                assert(tail[i] == front_tail[i]);
            } else {
                assert(tail[i] == c);
            }
        }
        lemma_encode_utf8_concat(front_tail, seq![c]);
        lemma_ascii_bytes(seq![c]);
        assert(tail =~= front_tail + seq![c]);
    }
}

} // verus!
