//! Null-terminated encoding of text.
//!
//! The native engine reads each argument up to its first zero byte, so a text
//! can be handed over only if its UTF-8 encoding holds no zero byte itself.

use vstd::prelude::*;
use vstd::utf8::{
    char_is_scalar, char_u32_cast, decode_utf8, encode_scalar, encode_utf8, encode_utf8_decode_utf8,
    encode_utf8_valid_utf8, has_width_1_encoding, is_scalar, valid_utf8,
};

verus! {

/// Some byte of `bytes` is zero.
pub open spec fn has_nul(bytes: Seq<u8>) -> bool {
    exists|i: int| 0 <= i < bytes.len() && bytes[i] == 0u8
}

/// `at` is the position of the first zero byte of `bytes`.
pub open spec fn is_first_nul(bytes: Seq<u8>, at: int) -> bool {
    &&& 0 <= at < bytes.len()
    &&& bytes[at] == 0u8
    &&& forall|j: int| 0 <= j < at ==> bytes[j] != 0u8
}

/// `text` can be written as a null-terminated buffer: its encoding holds no
/// zero byte.
pub open spec fn representable(text: Seq<char>) -> bool {
    !has_nul(encode_utf8(text))
}

/// The null-terminated buffer for `text`: its UTF-8 encoding, then one zero
/// byte.
pub open spec fn c_string(text: Seq<char>) -> Seq<u8> {
    encode_utf8(text).push(0u8)
}

/// `buffer` ends in a zero byte and holds no other.
pub open spec fn is_c_string(buffer: Seq<u8>) -> bool {
    buffer.len() > 0 && is_first_nul(buffer, buffer.len() - 1)
}

/// Encodes `text` as a null-terminated buffer, or reports the byte position of
/// the first zero byte that stands in its way. It succeeds exactly when no
/// character of `text` is U+0000.
pub fn to_c_string(text: &str) -> (r: Result<Vec<u8>, usize>)
    ensures
        r is Ok <==> !text@.contains('\0'),
        match r {
            Ok(buffer) => {
                &&& representable(text@)
                &&& buffer@ == c_string(text@)
                &&& is_c_string(buffer@)
            },
            Err(at) => is_first_nul(encode_utf8(text@), at as int),
        },
{
    let bytes = text.as_bytes();
    let mut buffer: Vec<u8> = Vec::new();
    let mut i: usize = 0;
    while i < bytes.len()
        invariant
            i <= bytes.len(),
            bytes@ == encode_utf8(text@),
            buffer@ == bytes@.subrange(0, i as int),
            forall|j: int| 0 <= j < i ==> bytes@[j] != 0u8,
        decreases bytes.len() - i,
    {
        let byte = bytes[i];
        if byte == 0 {
            proof {
                lemma_representable_iff_no_nul_char(text@);
            }
            return Err(i);
        }
        buffer.push(byte);
        i += 1;
    }
    proof {
        lemma_representable_iff_no_nul_char(text@);
    }
    assert(buffer@ == bytes@);
    buffer.push(0);
    Ok(buffer)
}

/// The encoding of one scalar value holds a zero byte exactly when the value
/// is zero.
proof fn lemma_scalar_nul(scalar: u32)
    requires
        is_scalar(scalar),
    ensures
        has_nul(encode_scalar(scalar)) <==> scalar == 0,
{
    let bytes = encode_scalar(scalar);
    if has_width_1_encoding(scalar) {
        assert(((scalar & 0x7F) as u8 == 0u8) <==> scalar == 0) by (bit_vector)
            requires
                scalar <= 0x7F,
        ;
        if scalar == 0 {
            assert(bytes[0] == 0u8);
        }
    } else {
        assert(0xC0u8 | ((scalar >> 6) & 0x1F) as u8 != 0u8) by (bit_vector);
        assert(0xE0u8 | ((scalar >> 12) & 0x0F) as u8 != 0u8) by (bit_vector);
        assert(0xF0u8 | ((scalar >> 18) & 0x7) as u8 != 0u8) by (bit_vector);
        assert(0x80u8 | (scalar & 0x3F) as u8 != 0u8) by (bit_vector);
        assert(0x80u8 | ((scalar >> 6) & 0x3F) as u8 != 0u8) by (bit_vector);
        assert(0x80u8 | ((scalar >> 12) & 0x3F) as u8 != 0u8) by (bit_vector);
    }
}

/// A concatenation holds a zero byte exactly when one of its parts does.
proof fn lemma_has_nul_concat(a: Seq<u8>, b: Seq<u8>)
    ensures
        has_nul(a + b) <==> has_nul(a) || has_nul(b),
{
    if has_nul(a) {
        let i = choose|i: int| 0 <= i < a.len() && a[i] == 0u8;
        assert((a + b)[i] == 0u8);
    }
    if has_nul(b) {
        let i = choose|i: int| 0 <= i < b.len() && b[i] == 0u8;
        assert((a + b)[a.len() + i] == 0u8);
    }
    if has_nul(a + b) {
        let i = choose|i: int| 0 <= i < (a + b).len() && (a + b)[i] == 0u8;
        if i < a.len() {
            assert(a[i] == 0u8);
        } else {
            assert(b[i - a.len()] == 0u8);
        }
    }
}

/// A text can be written as a null-terminated buffer exactly when none of its
/// characters is U+0000: no other character has a zero byte in its encoding.
pub proof fn lemma_representable_iff_no_nul_char(text: Seq<char>)
    ensures
        representable(text) <==> !text.contains('\0'),
    decreases text.len(),
{
    if text.len() == 0 {
    } else {
        let head = text[0];
        let rest = text.drop_first();
        let scalar = head as u32;
        char_is_scalar(head);
        lemma_scalar_nul(scalar);
        lemma_has_nul_concat(encode_scalar(scalar), encode_utf8(rest));
        lemma_representable_iff_no_nul_char(rest);
        assert(scalar == 0 <==> head == '\0') by {
            char_u32_cast(head, scalar);
            char_u32_cast('\0', 0u32);
        }
        if text.contains('\0') {
            let i = choose|i: int| 0 <= i < text.len() && text[i] == '\0';
            if i > 0 {
                assert(rest[i - 1] == '\0');
            }
        }
        if rest.contains('\0') {
            let i = choose|i: int| 0 <= i < rest.len() && rest[i] == '\0';
            assert(text[i + 1] == '\0');
        }
    }
}

/// The text can be read back from its buffer: the bytes before the terminator
/// decode to it, so distinct texts never share a buffer.
pub proof fn lemma_c_string_round_trip(text: Seq<char>)
    ensures
        valid_utf8(c_string(text).drop_last()),
        decode_utf8(c_string(text).drop_last()) == text,
{
    assert(c_string(text).drop_last() == encode_utf8(text));
    encode_utf8_valid_utf8(text);
    encode_utf8_decode_utf8(text);
}

} // verus!
