//! The current text selection as a NUL-terminated byte buffer.
//!
//! Two operations make up the boundary. `get_selection_text` takes the text
//! that the desktop reported as selected, removes every NUL byte from it and
//! hands the caller an owned [`TextBuffer`]. `free_c_string` takes a buffer
//! back and ends its life. Asking the desktop is left to the caller: it is the
//! one step that can fail in ways this library cannot rule out.
//!
//! A buffer has exactly one owner. It is moved to the caller when it is
//! returned and moved back when it is released, so it can be released once and
//! cannot be read afterwards. `None` stands for the null handle: it never
//! refers to a buffer, and releasing it does nothing.

pub mod buffer;
pub mod sanitize;
pub mod text;

use vstd::prelude::*;
use vstd::string::StringSliceAdditionalSpecFns;
use vstd::utf8::{decode_utf8, valid_utf8};
use crate::buffer::TextBuffer;
use crate::sanitize::{
    lemma_strip_nul_identity, lemma_strip_nul_is_nul_free, nul_free, strip_nul, strip_nul_bytes,
};
use crate::text::{lemma_sanitized_text_decodes, strip_nul_chars};

verus! {

/// Retrieves the selection `text` as a buffer owned by the caller: the text is
/// sanitized, then terminated.
///
/// Always yields a buffer, also for empty text. Its text is the UTF-8 encoding
/// of `text` without the NUL bytes, which is the encoding of `text` without its
/// NUL characters; text that holds no NUL comes back byte for byte.
pub fn get_selection_text(text: &str) -> (buffer: Option<TextBuffer>)
    ensures
        buffer is Some,
        buffer.unwrap()@ == strip_nul(text.spec_bytes()),
        nul_free(text.spec_bytes()) ==> buffer.unwrap()@ == text.spec_bytes(),
        text@.len() == 0 ==> buffer.unwrap()@.len() == 0,
        nul_free(buffer.unwrap()@),
        valid_utf8(buffer.unwrap()@),
        decode_utf8(buffer.unwrap()@) == strip_nul_chars(text@),
{
    let sanitized: Vec<u8> = strip_nul_bytes(text.as_bytes());
    proof {
        lemma_strip_nul_is_nul_free(text.spec_bytes());
        lemma_sanitized_text_decodes(text@);
        if nul_free(text.spec_bytes()) {
            lemma_strip_nul_identity(text.spec_bytes());
        }
    }
    match TextBuffer::new(sanitized) {
        Ok(buffer) => Some(buffer),
        Err(_) => None,
    }
}

/// Releases a buffer that `get_selection_text` returned.
///
/// The buffer is moved in and its memory is given back when this function
/// returns. `None` is accepted and ignored.
pub fn free_c_string(buffer: Option<TextBuffer>) {
    match buffer {
        Some(owned) => {
            let _bytes: Vec<u8> = owned.into_bytes_with_nul();
        },
        None => {},
    }
}

} // verus!
