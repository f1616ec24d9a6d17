//! Text as the bytes of its UTF-8 form.

use vstd::prelude::*;
use vstd::utf8::{
    encode_scalar, encode_utf8, has_width_1_encoding, is_ascii_chars, leading_byte_width_1,
    leading_byte_width_2, leading_byte_width_3, leading_byte_width_4,
};
use crate::frame::{is_ascii_bytes, ASCII_MAX};

verus! {

/// A text is made of ASCII characters alone exactly if its UTF-8 form is made
/// of ASCII bytes alone: a character outside ASCII takes several bytes, none
/// of them ASCII.
pub proof fn lemma_ascii_text_iff_ascii_bytes(chars: Seq<char>)
    ensures
        is_ascii_chars(chars) <==> is_ascii_bytes(encode_utf8(chars)),
    decreases chars.len(),
{
    if chars.len() > 0 {
        let first = chars[0] as u32;
        let head = encode_scalar(first);
        let tail = encode_utf8(chars.drop_first());
        let bytes = encode_utf8(chars);
        assert(bytes == head + tail);
        lemma_ascii_text_iff_ascii_bytes(chars.drop_first());
        lemma_leading_byte(first);
        lemma_ascii_char(chars[0]);
        if has_width_1_encoding(first) {
            assert(head.len() == 1);
            if is_ascii_chars(chars) {
                assert forall|i: int| 0 <= i < chars.drop_first().len() implies '\0'
                    <= #[trigger] chars.drop_first()[i] <= '\u{7f}' by {
                    assert(chars.drop_first()[i] == chars[i + 1]);
                }
                assert forall|i: int| 0 <= i < bytes.len() implies bytes[i] <= ASCII_MAX by {
                    if i > 0 {
                        assert(bytes[i] == tail[i - 1]);
                    }
                }
            }
            if is_ascii_bytes(bytes) {
                assert forall|i: int| 0 <= i < tail.len() implies tail[i] <= ASCII_MAX by {
                    assert(tail[i] == bytes[i + 1]);
                }
                assert forall|i: int| 0 <= i < chars.len() implies '\0' <= #[trigger] chars[i]
                    <= '\u{7f}' by {
                    if i > 0 {
                        assert(chars[i] == chars.drop_first()[i - 1]);
                    }
                }
            }
        } else {
            assert(!('\0' <= chars[0] <= '\u{7f}'));
            assert(bytes[0] == head[0]);
            assert(bytes[0] > ASCII_MAX);
        }
    }
}

/// A character is ASCII exactly if its number is below 128.
proof fn lemma_ascii_char(c: char)
    ensures
        has_width_1_encoding(c as u32) <==> '\0' <= c <= '\u{7f}',
{
}

/// The first byte of a character's UTF-8 form is ASCII exactly if the
/// character is.
proof fn lemma_leading_byte(scalar: u32)
    ensures
        has_width_1_encoding(scalar) ==> leading_byte_width_1(scalar) <= ASCII_MAX,
        leading_byte_width_2(scalar) > ASCII_MAX,
        leading_byte_width_3(scalar) > ASCII_MAX,
        leading_byte_width_4(scalar) > ASCII_MAX,
{
    assert((scalar & 0x7F) as u8 <= 0x7Fu8) by (bit_vector);
    assert(0xC0u8 | ((scalar >> 6) & 0x1F) as u8 > 0x7Fu8) by (bit_vector);
    assert(0xE0u8 | ((scalar >> 12) & 0x0F) as u8 > 0x7Fu8) by (bit_vector);
    assert(0xF0u8 | ((scalar >> 18) & 0x7) as u8 > 0x7Fu8) by (bit_vector);
}

} // verus!
