//! Framing of text as C strings.
//!
//! A C string is a run of non-NUL bytes closed by one NUL byte. Text that holds
//! a NUL character has no C string; the foreign side then sees a null pointer.
//! An owned C string is kept as its bytes, terminator included.

use vstd::prelude::*;
use vstd::string::*;
use vstd::utf8::*;

verus! {

/// The C string that carries `text`: its UTF-8 bytes followed by the terminator,
/// or nothing where the text holds a NUL character.
pub open spec fn c_string_of(text: Seq<char>) -> Option<Seq<u8>> {
    if text.contains('\0') {
        None
    } else {
        Some(encode_utf8(text).push(0u8))
    }
}

/// The bytes of an owned C string, where there is one.
pub open spec fn c_string_view(string: Option<Vec<u8>>) -> Option<Seq<u8>> {
    match string {
        Some(bytes) => Some(bytes@),
        None => None,
    }
}

/// Whether `bytes` is a well-formed C string: one terminator, at the end.
pub open spec fn is_c_string(bytes: Seq<u8>) -> bool {
    &&& bytes.len() > 0
    &&& bytes.last() == 0u8
    &&& forall|i: int| 0 <= i < bytes.len() - 1 ==> bytes[i] != 0u8
}

/// Of the bytes that encode a scalar value only the single byte of the value
/// zero is zero: leading bytes of longer encodings and continuation bytes have
/// their top bit set.
proof fn lemma_scalar_has_nul_byte(scalar: u32)
    by (bit_vector)
    requires
        scalar <= 0x10FFFF,
    ensures
        (scalar & 0x7F) as u8 == 0u8 && scalar <= 0x7F <==> scalar == 0,
        0xC0u8 | ((scalar >> 6) & 0x1F) as u8 != 0u8,
        0xE0u8 | ((scalar >> 12) & 0x0F) as u8 != 0u8,
        0xF0u8 | ((scalar >> 18) & 0x7) as u8 != 0u8,
        0x80u8 | (scalar & 0x3F) as u8 != 0u8,
        0x80u8 | ((scalar >> 6) & 0x3F) as u8 != 0u8,
        0x80u8 | ((scalar >> 12) & 0x3F) as u8 != 0u8,
{
}

/// The encoding of one character holds a NUL byte exactly when the character is NUL.
pub proof fn lemma_encoded_char_nul(c: char)
    ensures
        encode_scalar(c as u32).contains(0u8) <==> c == '\0',
{
    let scalar: u32 = c as u32;
    let bytes = encode_scalar(scalar);
    lemma_scalar_has_nul_byte(scalar);
    if c == '\0' {
        assert(bytes[0] == 0u8);
    } else {
        assert forall|i: int| 0 <= i < bytes.len() implies bytes[i] != 0u8 by {}
    }
}

/// UTF-8 bytes hold a NUL byte exactly when the text holds a NUL character.
pub proof fn lemma_encoded_text_nul(text: Seq<char>)
    ensures
        encode_utf8(text).contains(0u8) <==> text.contains('\0'),
    decreases text.len(),
{
    if text.len() > 0 {
        let head = encode_scalar(text[0] as u32);
        let rest = text.drop_first();
        let tail = encode_utf8(rest);
        lemma_encoded_char_nul(text[0]);
        lemma_encoded_text_nul(rest);
        assert(encode_utf8(text) == head + tail);
        if text.contains('\0') {
            let i: int = choose|i: int| 0 <= i < text.len() && text[i] == '\0';
            if i == 0 {
                let j: int = choose|j: int| 0 <= j < head.len() && head[j] == 0u8;
                assert((head + tail)[j] == 0u8);
            } else {
                assert(rest[i - 1] == '\0');
                let j: int = choose|j: int| 0 <= j < tail.len() && tail[j] == 0u8;
                assert((head + tail)[head.len() + j] == 0u8);
            }
        }
        if (head + tail).contains(0u8) {
            let j: int = choose|j: int| 0 <= j < (head + tail).len() && (head + tail)[j] == 0u8;
            if j < head.len() {
                assert(head[j] == 0u8);
                assert(text[0] == '\0');
            } else {
                assert(tail[j - head.len()] == 0u8);
                let i: int = choose|i: int| 0 <= i < rest.len() && rest[i] == '\0';
                assert(text[i + 1] == '\0');
            }
        }
    }
}

/// Every C string that `c_string_of` gives is well formed.
pub proof fn lemma_c_string_of_well_formed(text: Seq<char>)
    requires
        !text.contains('\0'),
    ensures
        is_c_string(c_string_of(text)->0),
{
    lemma_encoded_text_nul(text);
    let bytes = encode_utf8(text);
    assert forall|i: int| 0 <= i < bytes.len() implies bytes.push(0u8)[i] != 0u8 by {
        assert(bytes[i] != 0u8);
    }
}

/// Copies `value` into a freshly owned C string.
///
/// The copy is the UTF-8 bytes of `value` and one terminating NUL. Text with a
/// NUL character in it cannot be framed, and yields nothing.
pub fn strdup(value: &str) -> (copy: Option<Vec<u8>>)
    ensures
        c_string_view(copy) == c_string_of(value@),
{
    let source = value.as_bytes();
    let mut bytes: Vec<u8> = Vec::new();
    let mut i: usize = 0;
    while i < source.len()
        invariant
            i <= source.len(),
            source@ == encode_utf8(value@),
            bytes@ == source@.take(i as int),
            forall|j: int| 0 <= j < i ==> source@[j] != 0u8,
        decreases source.len() - i,
    {
        let byte: u8 = source[i];
        if byte == 0 {
            proof {
                assert(source@[i as int] == 0u8);
                lemma_encoded_text_nul(value@);
            }
            return None;
        }
        bytes.push(byte);
        i += 1;
    }
    bytes.push(0);
    proof {
        assert(source@.take(i as int) == source@);
        lemma_encoded_text_nul(value@);
    }
    Some(bytes)
}

} // verus!
