//! The transferable text buffer: text bytes followed by one NUL terminator.
//!
//! A `TextBuffer` owns its bytes. The text never holds a NUL byte, so a reader
//! that stops at the first NUL sees the whole text and nothing more. Handing the
//! buffer to `into_bytes_with_nul`, or letting it go out of scope, ends its
//! life: the value is moved, and cannot be read or released a second time.

use vstd::prelude::*;
use crate::sanitize::nul_free;

verus! {

/// `position` is the index of the first NUL byte in `bytes`.
pub open spec fn first_nul_at(bytes: Seq<u8>, position: int) -> bool {
    &&& 0 <= position < bytes.len()
    &&& bytes[position] == 0
    &&& forall|j: int| 0 <= j < position ==> bytes[j] != 0
}

/// Why a buffer could not be built: the text holds a NUL byte, first at `position`.
#[derive(Clone, Copy, Debug, PartialEq, Eq)]
pub struct ConstructionFailure {
    pub position: usize,
}

/// An owned, NUL-terminated byte buffer whose text holds no NUL byte.
#[derive(Debug)]
pub struct TextBuffer {
    storage: Vec<u8>,
}

impl View for TextBuffer {
    type V = Seq<u8>;

    /// The text: every byte before the terminator.
    closed spec fn view(&self) -> Seq<u8> {
        self.storage@.drop_last()
    }
}

impl TextBuffer {
    #[verifier::type_invariant]
    spec fn terminated_once(&self) -> bool {
        &&& self.storage@.len() > 0
        &&& self.storage@.last() == 0
        &&& nul_free(self.storage@.drop_last())
    }

    /// Builds a buffer that holds `text` and a terminator.
    ///
    /// Succeeds exactly when `text` is free of NUL bytes; otherwise reports
    /// where the first one stands.
    pub fn new(text: Vec<u8>) -> (built: Result<TextBuffer, ConstructionFailure>)
        ensures
            built is Ok <==> nul_free(text@),
            built matches Ok(buffer) ==> buffer@ == text@,
            built matches Err(failure) ==> first_nul_at(text@, failure.position as int),
    {
        let mut i: usize = 0;
        while i < text.len()
            invariant
                i <= text.len(),
                forall|j: int| 0 <= j < i ==> text@[j] != 0,
            decreases text.len() - i,
        {
            if text[i] == 0 {
                return Err(ConstructionFailure { position: i });
            }
            i += 1;
        }
        let ghost content = text@;
        let mut storage = text;
        storage.push(0);
        assert(storage@.drop_last() =~= content);
        Ok(TextBuffer { storage })
    }

    /// The text, without the terminator.
    pub fn as_bytes(&self) -> (text: &[u8])
        ensures
            text@ == self@,
            nul_free(text@),
    {
        proof {
            use_type_invariant(self);
        }
        let end: usize = self.storage.len() - 1;
        let (text, _) = self.storage.as_slice().split_at(end);
        assert(text@ =~= self.storage@.drop_last());
        text
    }

    /// Gives up the buffer and returns its bytes, terminator included. The
    /// terminator is the last byte and the only NUL.
    pub fn into_bytes_with_nul(self) -> (bytes: Vec<u8>)
        ensures
            bytes@ == self@.push(0),
            nul_free(self@),
    {
        proof {
            use_type_invariant(&self);
            assert(self.storage@.drop_last().push(0) =~= self.storage@);
        }
        self.storage
    }
}

} // verus!
