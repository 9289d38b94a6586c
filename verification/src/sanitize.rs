//! Removal of NUL bytes from selection text.
//!
//! A buffer that crosses a C boundary ends at its first NUL byte, so every NUL
//! inside the text is dropped before the buffer is built. The other bytes keep
//! their values and their order.

use vstd::prelude::*;

verus! {

/// The predicate that selects the bytes which survive sanitization.
pub open spec fn keeps_byte() -> spec_fn(u8) -> bool {
    |b: u8| b != 0
}

/// `bytes` with every NUL byte removed and all other bytes in the order they had.
pub open spec fn strip_nul(bytes: Seq<u8>) -> Seq<u8> {
    bytes.filter(keeps_byte())
}

/// No byte of `bytes` is NUL.
pub open spec fn nul_free(bytes: Seq<u8>) -> bool {
    forall|i: int| 0 <= i < bytes.len() ==> bytes[i] != 0
}

/// Sanitizing nothing yields nothing.
pub proof fn lemma_strip_nul_empty()
    ensures
        strip_nul(Seq::<u8>::empty()) == Seq::<u8>::empty(),
{
    reveal(Seq::filter);
}

/// Sanitizing a sequence extended by one byte: a NUL is dropped, any other byte
/// is appended to the sanitized prefix.
pub proof fn lemma_strip_nul_push(bytes: Seq<u8>, b: u8)
    ensures
        strip_nul(bytes.push(b)) == if b == 0 {
            strip_nul(bytes)
        } else {
            strip_nul(bytes).push(b)
        },
{
    bytes.lemma_filter_push(b, keeps_byte());
}

/// Sanitization works piecewise: the sanitized concatenation is the
/// concatenation of the sanitized parts.
pub proof fn lemma_strip_nul_concat(a: Seq<u8>, b: Seq<u8>)
    ensures
        strip_nul(a + b) == strip_nul(a) + strip_nul(b),
{
    Seq::filter_distributes_over_add(a, b, keeps_byte());
}

/// Sanitized text never contains a NUL byte, and is never longer than the
/// text it came from.
pub proof fn lemma_strip_nul_is_nul_free(bytes: Seq<u8>)
    ensures
        nul_free(strip_nul(bytes)),
        strip_nul(bytes).len() <= bytes.len(),
    decreases bytes.len(),
{
    if bytes.len() == 0 {
        lemma_strip_nul_empty();
    } else {
        let front = bytes.drop_last();
        lemma_strip_nul_is_nul_free(front);
        lemma_strip_nul_push(front, bytes.last());
        assert(front.push(bytes.last()) =~= bytes);
    }
}

/// Text without NUL bytes passes through sanitization unchanged.
pub proof fn lemma_strip_nul_identity(bytes: Seq<u8>)
    requires
        nul_free(bytes),
    ensures
        strip_nul(bytes) == bytes,
    decreases bytes.len(),
{
    if bytes.len() == 0 {
        lemma_strip_nul_empty();
        assert(bytes =~= Seq::<u8>::empty());
    } else {
        let front = bytes.drop_last();
        lemma_strip_nul_identity(front);
        lemma_strip_nul_push(front, bytes.last());
        assert(front.push(bytes.last()) =~= bytes);
    }
}

/// Text made of NUL bytes only sanitizes to the empty text.
pub proof fn lemma_strip_nul_all_nul(bytes: Seq<u8>)
    requires
        forall|i: int| 0 <= i < bytes.len() ==> bytes[i] == 0,
    ensures
        strip_nul(bytes) == Seq::<u8>::empty(),
    decreases bytes.len(),
{
    if bytes.len() == 0 {
        lemma_strip_nul_empty();
    } else {
        let front = bytes.drop_last();
        lemma_strip_nul_all_nul(front);
        lemma_strip_nul_push(front, bytes.last());
        assert(front.push(bytes.last()) =~= bytes);
    }
}

/// Copies `bytes` without its NUL bytes.
pub fn strip_nul_bytes(bytes: &[u8]) -> (kept: Vec<u8>)
    ensures
        kept@ == strip_nul(bytes@),
{
    let mut kept: Vec<u8> = Vec::new();
    let mut i: usize = 0;
    proof {
        lemma_strip_nul_empty();
        assert(bytes@.take(0) =~= Seq::<u8>::empty());
    }
    while i < bytes.len()
        invariant
            i <= bytes.len(),
            kept@ == strip_nul(bytes@.take(i as int)),
        decreases bytes.len() - i,
    {
        let b: u8 = bytes[i];
        proof {
            lemma_strip_nul_push(bytes@.take(i as int), b);
            assert(bytes@.take(i as int).push(b) =~= bytes@.take(i + 1));
        }
        if b != 0 {
            kept.push(b);
        }
        i += 1;
    }
    proof {
        assert(bytes@.take(i as int) =~= bytes@);
    }
    kept
}

} // verus!
