//! What sanitization means for text, rather than for bytes.
//!
//! Selection text arrives as a string, and a string is stored as the UTF-8
//! encoding of its characters. In UTF-8 the NUL byte encodes the NUL character
//! and appears in the encoding of no other character. Removing the NUL bytes of
//! the encoding is therefore the same as removing the NUL characters of the
//! string, and what is left is again well-formed UTF-8.

use vstd::prelude::*;
use vstd::utf8::*;
use crate::sanitize::{
    lemma_strip_nul_concat, lemma_strip_nul_empty, lemma_strip_nul_identity, lemma_strip_nul_push,
    nul_free, strip_nul,
};

verus! {

/// The predicate that selects the characters which survive sanitization.
pub open spec fn keeps_char() -> spec_fn(char) -> bool {
    |c: char| c != '\0'
}

/// `chars` with every NUL character removed and all others in the order they had.
pub open spec fn strip_nul_chars(chars: Seq<char>) -> Seq<char> {
    chars.filter(keeps_char())
}

proof fn lemma_width_1_byte(scalar: u32)
    by (bit_vector)
    requires
        0 < scalar <= 0x7F,
    ensures
        leading_byte_width_1(scalar) != 0,
{
}

proof fn lemma_width_2_bytes(scalar: u32)
    by (bit_vector)
    ensures
        leading_byte_width_2(scalar) != 0,
        last_continuation_byte(scalar) != 0,
{
}

proof fn lemma_width_3_bytes(scalar: u32)
    by (bit_vector)
    ensures
        leading_byte_width_3(scalar) != 0,
        second_last_continuation_byte(scalar) != 0,
{
}

proof fn lemma_width_4_bytes(scalar: u32)
    by (bit_vector)
    ensures
        leading_byte_width_4(scalar) != 0,
        third_last_continuation_byte(scalar) != 0,
{
}

/// The scalar zero is encoded as the single byte zero; the encoding of any
/// other scalar holds no zero byte.
pub proof fn lemma_encode_scalar_nul(scalar: u32)
    requires
        is_scalar(scalar),
    ensures
        scalar == 0 ==> encode_scalar(scalar) == seq![0u8],
        scalar != 0 ==> nul_free(encode_scalar(scalar)),
{
    if scalar == 0 {
        assert(leading_byte_width_1(0u32) == 0u8) by (bit_vector);
    } else {
        lemma_width_2_bytes(scalar);
        lemma_width_3_bytes(scalar);
        lemma_width_4_bytes(scalar);
        if has_width_1_encoding(scalar) {
            lemma_width_1_byte(scalar);
        }
    }
}

/// Removing the NUL bytes from the UTF-8 encoding of a string gives the UTF-8
/// encoding of the string without its NUL characters.
pub proof fn lemma_strip_nul_encode_utf8(chars: Seq<char>)
    ensures
        strip_nul(encode_utf8(chars)) == encode_utf8(strip_nul_chars(chars)),
    decreases chars.len(),
{
    if chars.len() == 0 {
        reveal(Seq::filter);
        lemma_strip_nul_empty();
        assert(encode_utf8(chars) =~= Seq::<u8>::empty());
    } else {
        let first = chars[0];
        let rest = chars.drop_first();
        let head = encode_scalar(first as u32);
        lemma_strip_nul_encode_utf8(rest);
        lemma_strip_nul_concat(head, encode_utf8(rest));
        char_is_scalar(first);
        lemma_encode_scalar_nul(first as u32);
        rest.lemma_filter_prepend(first, keeps_char());
        assert(chars =~= seq![first] + rest);
        if first == '\0' {
            lemma_strip_nul_empty();
            lemma_strip_nul_push(Seq::<u8>::empty(), 0u8);
            assert(Seq::<u8>::empty().push(0u8) =~= seq![0u8]);
            assert(strip_nul_chars(chars) =~= strip_nul_chars(rest));
            assert(strip_nul(head) + strip_nul(encode_utf8(rest)) =~= strip_nul(
                encode_utf8(rest),
            ));
        } else {
            assert(first as u32 != 0) by {
                char_u32_cast(first, first as u32);
            }
            lemma_strip_nul_identity(head);
            let kept = seq![first] + strip_nul_chars(rest);
            assert(kept.drop_first() =~= strip_nul_chars(rest));
            assert(strip_nul_chars(chars) == kept);
        }
    }
}

/// Sanitized text is well-formed UTF-8, and decodes to the string it came from
/// without its NUL characters.
pub proof fn lemma_sanitized_text_decodes(chars: Seq<char>)
    ensures
        valid_utf8(strip_nul(encode_utf8(chars))),
        decode_utf8(strip_nul(encode_utf8(chars))) == strip_nul_chars(chars),
{
    lemma_strip_nul_encode_utf8(chars);
    encode_utf8_valid_utf8(strip_nul_chars(chars));
    encode_utf8_decode_utf8(strip_nul_chars(chars));
}

/// A string without NUL characters has an encoding without NUL bytes, and the
/// other way round: "no NUL" means the same for the string and for its bytes.
pub proof fn lemma_nul_free_encoding(chars: Seq<char>)
    ensures
        nul_free(encode_utf8(chars)) <==> (forall|i: int| 0 <= i < chars.len() ==> chars[i] != '\0'),
    decreases chars.len(),
{
    if chars.len() == 0 {
        assert(encode_utf8(chars) =~= Seq::<u8>::empty());
    } else {
        let first = chars[0];
        let rest = chars.drop_first();
        let head = encode_scalar(first as u32);
        let tail = encode_utf8(rest);
        lemma_nul_free_encoding(rest);
        char_is_scalar(first);
        lemma_encode_scalar_nul(first as u32);
        assert(encode_utf8(chars) == head + tail);
        assert(head.len() > 0);
        if nul_free(head + tail) {
            assert(head[0] == (head + tail)[0]);
            assert forall|i: int| 0 <= i < tail.len() implies tail[i] != 0 by {
                assert(tail[i] == (head + tail)[head.len() + i]);
            }
            assert forall|i: int| 0 <= i < chars.len() implies chars[i] != '\0' by {
                if i > 0 {
                    assert(chars[i] == rest[i - 1]);
                }
            }
        }
        if forall|i: int| 0 <= i < chars.len() ==> chars[i] != '\0' {
            assert(first as u32 != 0) by {
                char_u32_cast(first, first as u32);
            }
            assert forall|i: int| 0 <= i < rest.len() implies rest[i] != '\0' by {
                assert(rest[i] == chars[i + 1]);
            }
            assert forall|i: int| 0 <= i < (head + tail).len() implies (head + tail)[i] != 0 by {
                if i >= head.len() {
                    assert((head + tail)[i] == tail[i - head.len()]);
                }
            }
        }
    }
}

/// Text without NUL survives untouched: sanitizing its encoding changes no
/// byte, and decoding the result gives back exactly that string.
pub proof fn lemma_text_without_nul_round_trips(chars: Seq<char>)
    requires
        forall|i: int| 0 <= i < chars.len() ==> chars[i] != '\0',
    ensures
        strip_nul(encode_utf8(chars)) == encode_utf8(chars),
        decode_utf8(strip_nul(encode_utf8(chars))) == chars,
{
    lemma_nul_free_encoding(chars);
    lemma_strip_nul_identity(encode_utf8(chars));
    encode_utf8_decode_utf8(chars);
}

} // verus!
