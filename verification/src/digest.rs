//! The two forms of a hash value: four field elements, or raw bytes.

use crate::field::{canonical, field_bytes, le_word, le_word_of, to_bytes, word_to_field, ORDER};
use vstd::prelude::*;

verus! {

/// A 256-bit hash value as four field elements.
#[derive(Clone, Copy, Debug, PartialEq, Eq, Hash)]
pub struct Digest {
    pub elements: [u64; 4],
}

/// The first `N` bytes of a hash value, with no field structure.
#[derive(Clone, Copy, Debug, PartialEq, Eq, Hash)]
pub struct BytesDigest<const N: usize> {
    pub bytes: [u8; N],
}

impl View for Digest {
    type V = Seq<u64>;

    open spec fn view(&self) -> Seq<u64> {
        self.elements@
    }
}

impl<const N: usize> View for BytesDigest<N> {
    type V = Seq<u8>;

    open spec fn view(&self) -> Seq<u8> {
        self.bytes@
    }
}

/// Every word of `words` is a canonical field element.
pub open spec fn all_canonical(words: Seq<u64>) -> bool {
    forall|i: int| 0 <= i < words.len() ==> #[trigger] words[i] < ORDER
}

/// The four field elements that the first 32 bytes of `bytes` stand for:
/// each run of eight bytes is read as a little-endian word and brought to
/// its canonical value.
pub open spec fn digest_words(bytes: Seq<u8>) -> Seq<u64>
    recommends
        bytes.len() >= 32,
{
    Seq::new(4, |i: int| canonical(le_word(bytes.subrange(8 * i, 8 * i + 8))))
}

/// The all-zero digest.
pub open spec fn zero_words() -> Seq<u64> {
    seq![0u64, 0u64, 0u64, 0u64]
}

impl Digest {
    /// Every element is a canonical field element.
    pub open spec fn wf(&self) -> bool {
        all_canonical(self@)
    }

    /// The all-zero digest.
    pub fn zero() -> (digest: Digest)
        ensures
            digest@ == zero_words(),
            digest.wf(),
    {
        let digest = Digest { elements: [0u64;4] };
        assert(digest@ =~= zero_words());
        digest
    }

    /// Reads a digest from the first 32 bytes of `bytes`.
    pub fn from_bytes(bytes: &[u8]) -> (digest: Digest)
        requires
            bytes@.len() >= 32,
        ensures
            digest@ == digest_words(bytes@),
            digest.wf(),
    {
        let mut elements: [u64; 4] = [0u64;4];
        let mut i: usize = 0;
        while i < 4
            invariant
                i <= 4,
                bytes@.len() >= 32,
                forall|j: int|
                    0 <= j < i ==> #[trigger] elements@[j] == canonical(
                        le_word(bytes@.subrange(8 * j, 8 * j + 8)),
                    ),
            decreases 4 - i,
        {
            elements[i] = word_to_field(le_word_of(bytes, 8 * i));
            i = i + 1;
        }
        let digest = Digest { elements };
        assert(digest@ =~= digest_words(bytes@));
        digest
    }

    /// The 32 bytes of the digest: each element's canonical value, little
    /// endian, in order.
    pub fn to_bytes(&self) -> (bytes: Vec<u8>)
        ensures
            bytes@ == field_bytes(self@),
            bytes@.len() == 32,
    {
        to_bytes(self.elements.as_slice())
    }
}

/// Writing a digest out and reading it back gives its canonical form: the
/// digest itself where it is well formed.
pub proof fn lemma_digest_round_trip(words: Seq<u64>)
    requires
        words.len() == 4,
    ensures
        digest_words(field_bytes(words)) == words.map_values(|w: u64| canonical(w)),
        all_canonical(words) ==> digest_words(field_bytes(words)) == words,
{
    let bytes = field_bytes(words);
    assert forall|i: int| 0 <= i < 4 implies #[trigger] digest_words(bytes)[i] == canonical(
        words[i],
    ) by {
        let word = canonical(words[i]);
        crate::field::lemma_le_word_of_le_bytes(word);
        assert(bytes.subrange(8 * i, 8 * i + 8) =~= crate::field::le_bytes(word));
    }
    assert(digest_words(bytes) =~= words.map_values(|w: u64| canonical(w)));
    if all_canonical(words) {
        assert(digest_words(bytes) =~= words);
    }
}

impl<const N: usize> BytesDigest<N> {
    /// Keeps the first `N` bytes of `bytes`.
    pub fn from_bytes(bytes: &[u8]) -> (digest: BytesDigest<N>)
        requires
            N <= bytes@.len(),
        ensures
            digest@ == bytes@.take(N as int),
    {
        let mut kept: [u8; N] = [0u8;N];
        let mut i: usize = 0;
        while i < N
            invariant
                i <= N,
                N <= bytes@.len(),
                forall|j: int| 0 <= j < i ==> #[trigger] kept@[j] == bytes@[j],
            decreases N - i,
        {
            kept[i] = bytes[i];
            i = i + 1;
        }
        let digest = BytesDigest { bytes: kept };
        assert(digest@ =~= bytes@.take(N as int));
        digest
    }

    /// The `N` bytes of the digest.
    pub fn to_bytes(&self) -> (bytes: Vec<u8>)
        ensures
            bytes@ == self@,
    {
        let mut bytes: Vec<u8> = Vec::new();
        let mut i: usize = 0;
        while i < N
            invariant
                i <= N,
                bytes@ == self@.take(i as int),
            decreases N - i,
        {
            bytes.push(self.bytes[i]);
            assert(bytes@ =~= self@.take(i + 1));
            i = i + 1;
        }
        assert(self@.take(N as int) =~= self@);
        bytes
    }
}

} // verus!
