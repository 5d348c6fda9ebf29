//! Percent-decoding of URI text: the mathematical model, and the call that performs it.

use vstd::prelude::*;
use vstd::utf8::{
    char_is_scalar, char_u32_cast, decode_utf8, encode_scalar, encode_utf8,
    encode_utf8_decode_utf8, encode_utf8_valid_utf8, has_width_1_encoding, has_width_2_encoding,
    has_width_3_encoding, is_ascii_chars, is_ascii_chars_encode_utf8, pop_first_scalar, valid_utf8,
};

use crate::error::{QmpoError, SpecError};
use crate::trusted::percent_decode_utf8;

verus! {

/// The byte of `%`.
pub const PERCENT: u8 = 0x25;

/// True for the ASCII codes of `0`-`9`, `A`-`F` and `a`-`f`.
pub open spec fn is_hex_digit(b: u8) -> bool {
    (0x30 <= b && b <= 0x39) || (0x41 <= b && b <= 0x46) || (0x61 <= b && b <= 0x66)
}

/// The number, 0 to 15, that a hexadecimal digit stands for.
pub open spec fn hex_value(b: u8) -> int
    recommends
        is_hex_digit(b),
{
    if b <= 0x39 {
        b - 0x30
    } else if b <= 0x46 {
        b - 0x41 + 10
    } else {
        b - 0x61 + 10
    }
}

/// The bytes open with an escape: `%` and two hexadecimal digits.
pub open spec fn starts_with_escape(bytes: Seq<u8>) -> bool {
    bytes.len() >= 3 && bytes[0] == PERCENT && is_hex_digit(bytes[1]) && is_hex_digit(bytes[2])
}

/// The byte that the escape at the start of `bytes` stands for.
pub open spec fn escaped_byte(bytes: Seq<u8>) -> u8
    recommends
        starts_with_escape(bytes),
{
    (hex_value(bytes[1]) * 16 + hex_value(bytes[2])) as u8
}

/// Percent-decoding of a byte string. Each escape becomes the byte it stands for; every
/// other byte, a `%` that opens no escape included, stays as it is.
pub open spec fn percent_decoded(bytes: Seq<u8>) -> Seq<u8>
    decreases bytes.len(),
{
    if bytes.len() == 0 {
        seq![]
    } else if starts_with_escape(bytes) {
        seq![escaped_byte(bytes)] + percent_decoded(bytes.skip(3))
    } else {
        seq![bytes[0]] + percent_decoded(bytes.skip(1))
    }
}

/// The text that percent-decoding makes of `text`: its UTF-8 bytes are decoded, and the
/// result is read as UTF-8 again. `None` where the decoded bytes are not valid UTF-8.
pub open spec fn decoded_text(text: Seq<char>) -> Option<Seq<char>> {
    let bytes = percent_decoded(encode_utf8(text));
    if valid_utf8(bytes) {
        Some(decode_utf8(bytes))
    } else {
        None
    }
}

/// Decodes the percent-escapes of `text` and reads the result as UTF-8.
pub fn decode_percent_encoding(text: &str) -> (r: Result<String, QmpoError>)
    ensures
        match r {
            Ok(decoded) => decoded_text(text@) == Some(decoded@),
            Err(e) => decoded_text(text@) is None && e@ == SpecError::InvalidEncoding,
        },
{
    match percent_decode_utf8(text) {
        Ok(decoded) => Ok(decoded),
        Err(_) => Err(QmpoError::InvalidEncoding),
    }
}

/// Of a character other than `%`, no byte of the UTF-8 encoding is the byte of `%`.
proof fn lemma_encoded_char_has_no_percent(c: char)
    requires
        c != '%',
    ensures
        forall|i: int|
            0 <= i < encode_scalar(c as u32).len() ==> #[trigger] encode_scalar(c as u32)[i]
                != PERCENT,
{
    let v = c as u32;
    char_is_scalar(c);
    assert(v != 0x25) by {
        if v == 0x25 {
            char_u32_cast(c, v);
            char_u32_cast('%', v);
        }
    }
    if has_width_1_encoding(v) {
        assert((v & 0x7F) as u8 != 0x25u8) by (bit_vector)
            requires
                v <= 0x7F,
                v != 0x25,
        ;
    } else if has_width_2_encoding(v) {
        assert(0xC0u8 | ((v >> 6) & 0x1F) as u8 != 0x25u8) by (bit_vector);
        assert(0x80u8 | (v & 0x3F) as u8 != 0x25u8) by (bit_vector);
    } else if has_width_3_encoding(v) {
        assert(0xE0u8 | ((v >> 12) & 0x0F) as u8 != 0x25u8) by (bit_vector);
        assert(0x80u8 | ((v >> 6) & 0x3F) as u8 != 0x25u8) by (bit_vector);
        assert(0x80u8 | (v & 0x3F) as u8 != 0x25u8) by (bit_vector);
    } else {
        assert(0xF0u8 | ((v >> 18) & 0x7) as u8 != 0x25u8) by (bit_vector);
        assert(0x80u8 | ((v >> 12) & 0x3F) as u8 != 0x25u8) by (bit_vector);
        assert(0x80u8 | ((v >> 6) & 0x3F) as u8 != 0x25u8) by (bit_vector);
        assert(0x80u8 | (v & 0x3F) as u8 != 0x25u8) by (bit_vector);
    }
}

/// The UTF-8 encoding of a text without `%` holds no byte of `%`.
proof fn lemma_encoding_has_no_percent(text: Seq<char>)
    requires
        !text.contains('%'),
    ensures
        !encode_utf8(text).contains(PERCENT),
    decreases text.len(),
{
    if text.len() > 0 {
        let head = encode_scalar(text[0] as u32);
        let tail = encode_utf8(text.drop_first());
        lemma_encoded_char_has_no_percent(text[0]);
        assert(!text.drop_first().contains('%'));
        lemma_encoding_has_no_percent(text.drop_first());
        assert(!(head + tail).contains(PERCENT));
    }
}

/// Bytes among which there is no `%` decode to themselves.
proof fn lemma_bytes_without_percent(bytes: Seq<u8>)
    requires
        !bytes.contains(PERCENT),
    ensures
        percent_decoded(bytes) == bytes,
    decreases bytes.len(),
{
    if bytes.len() > 0 {
        assert(!bytes.skip(1).contains(PERCENT));
        lemma_bytes_without_percent(bytes.skip(1));
        assert(seq![bytes[0]] + bytes.skip(1) =~= bytes);
    }
}

/// A text in which no `%` occurs decodes to itself.
pub proof fn law_plain_text_decodes_to_itself(text: Seq<char>)
    requires
        !text.contains('%'),
    ensures
        decoded_text(text) == Some(text),
{
    lemma_encoding_has_no_percent(text);
    lemma_bytes_without_percent(encode_utf8(text));
    encode_utf8_valid_utf8(text);
    encode_utf8_decode_utf8(text);
}

/// Decoding never leaves nothing of something: a text that is not empty decodes, if it
/// decodes at all, to a text that is not empty.
pub proof fn law_decoded_text_is_not_empty(text: Seq<char>)
    requires
        text.len() > 0,
    ensures
        decoded_text(text) matches Some(decoded) ==> decoded.len() > 0,
{
    char_is_scalar(text[0]);
    assert(encode_utf8(text).len() > 0);
    assert(percent_decoded(encode_utf8(text)).len() > 0);
}

/// True for the characters of ASCII other than `%`: each stands for itself in a URI.
pub open spec fn is_plain_ascii(c: char) -> bool {
    c as u32 <= 0x7F && c != '%'
}

/// A plain ASCII character in front of a text is decoded to itself, whatever follows; the
/// rest of the text is decoded as it would be alone.
pub proof fn law_plain_char_is_kept(c: char, rest: Seq<char>)
    requires
        is_plain_ascii(c),
    ensures
        decoded_text(seq![c] + rest) == match decoded_text(rest) {
            Some(decoded) => Some(seq![c] + decoded),
            None => None,
        },
{
    let v = c as u32;
    let b = v as u8;
    let text = seq![c] + rest;
    let tail = percent_decoded(encode_utf8(rest));
    assert(text.drop_first() =~= rest);
    assert((v & 0x7F) as u8 == v as u8 && (v as u8) as u32 == v && (v as u8) <= 0x7F
        && (v as u8) & 0x7F == v as u8) by (bit_vector)
        requires
            v <= 0x7F,
    ;
    assert(b != PERCENT) by {
        if v == 0x25 {
            char_u32_cast(c, v);
            char_u32_cast('%', v);
        }
    }
    assert(encode_utf8(text) == seq![b] + encode_utf8(rest));
    assert((seq![b] + encode_utf8(rest)).skip(1) =~= encode_utf8(rest));
    assert(percent_decoded(encode_utf8(text)) == seq![b] + tail);
    assert(pop_first_scalar(seq![b] + tail) =~= tail);
    assert(valid_utf8(seq![b] + tail) == valid_utf8(tail));
    if valid_utf8(tail) {
        char_u32_cast(c, v);
        assert(decode_utf8(seq![b] + tail) == seq![c] + decode_utf8(tail));
    }
}

/// The hexadecimal digit, in upper case, for a number from 0 to 15.
pub open spec fn hex_digit(value: int) -> u8
    recommends
        0 <= value < 16,
{
    if value < 10 {
        (0x30 + value) as u8
    } else {
        (0x41 + value - 10) as u8
    }
}

/// The escape that stands for a byte: `%` and its two hexadecimal digits.
pub open spec fn escape_of(b: u8) -> Seq<u8> {
    seq![PERCENT, hex_digit(b as int / 16), hex_digit(b as int % 16)]
}

/// The bytes with every one of them written as an escape.
pub open spec fn escaped(bytes: Seq<u8>) -> Seq<u8>
    decreases bytes.len(),
{
    if bytes.len() == 0 {
        seq![]
    } else {
        escape_of(bytes[0]) + escaped(bytes.skip(1))
    }
}

/// The text whose characters have the given bytes as their codes.
pub open spec fn ascii_text(bytes: Seq<u8>) -> Seq<char> {
    Seq::new(bytes.len(), |i: int| bytes[i] as char)
}

/// A text with every byte of its UTF-8 encoding written as an escape.
pub open spec fn escaped_text(text: Seq<char>) -> Seq<char> {
    ascii_text(escaped(encode_utf8(text)))
}

/// Escapes hold bytes of ASCII only.
proof fn lemma_escaped_is_ascii(bytes: Seq<u8>)
    ensures
        forall|i: int| 0 <= i < escaped(bytes).len() ==> #[trigger] escaped(bytes)[i] <= 0x7F,
    decreases bytes.len(),
{
    if bytes.len() > 0 {
        let head = escape_of(bytes[0]);
        let tail = escaped(bytes.skip(1));
        lemma_escaped_is_ascii(bytes.skip(1));
        assert forall|i: int| 0 <= i < escaped(bytes).len() implies #[trigger] escaped(bytes)[i]
            <= 0x7F by {
            assert(escaped(bytes)[i] == if i < 3 {
                head[i]
            } else {
                tail[i - 3]
            });
        }
    }
}

/// Percent-decoding undoes escaping: whatever the bytes, their escapes decode to them.
pub proof fn law_escaped_bytes_decode(bytes: Seq<u8>)
    ensures
        percent_decoded(escaped(bytes)) == bytes,
    decreases bytes.len(),
{
    if bytes.len() > 0 {
        let b = bytes[0];
        let all = escaped(bytes);
        let rest = escaped(bytes.skip(1));
        law_escaped_bytes_decode(bytes.skip(1));
        assert(all.skip(3) =~= rest);
        assert(seq![b] + bytes.skip(1) =~= bytes);
    }
}

/// Decoding is exact: a text of any characters, written with every byte of its UTF-8
/// encoding as an escape, decodes to the very same text.
pub proof fn law_escaped_text_round_trips(text: Seq<char>)
    ensures
        decoded_text(escaped_text(text)) == Some(text),
{
    let bytes = escaped(encode_utf8(text));
    let written = ascii_text(bytes);
    lemma_escaped_is_ascii(encode_utf8(text));
    assert(is_ascii_chars(written));
    is_ascii_chars_encode_utf8(written);
    assert(encode_utf8(written) =~= bytes);
    law_escaped_bytes_decode(encode_utf8(text));
    encode_utf8_valid_utf8(text);
    encode_utf8_decode_utf8(text);
}

} // verus!
