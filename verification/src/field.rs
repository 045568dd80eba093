//! Conversion between field elements and little-endian byte buffers.

use vstd::prelude::*;

verus! {

/// The prime modulus of the field: 2^64 - 2^32 + 1.
pub const ORDER: u64 = 0xFFFF_FFFF_0000_0001;

/// The canonical representative of `word`, reached by at most one
/// subtraction of the modulus. Every `u64` is below twice the modulus, so
/// one subtraction is enough.
pub open spec fn canonical(word: u64) -> u64 {
    if word >= ORDER {
        (word - ORDER) as u64
    } else {
        word
    }
}

/// The eight bytes of `word`, least significant first.
pub open spec fn le_bytes(word: u64) -> Seq<u8> {
    seq![
        (word % 0x100) as u8,
        (word / 0x100 % 0x100) as u8,
        (word / 0x1_0000 % 0x100) as u8,
        (word / 0x100_0000 % 0x100) as u8,
        (word / 0x1_0000_0000 % 0x100) as u8,
        (word / 0x100_0000_0000 % 0x100) as u8,
        (word / 0x1_0000_0000_0000 % 0x100) as u8,
        (word / 0x100_0000_0000_0000 % 0x100) as u8,
    ]
}

/// The word whose little-endian bytes are the first eight bytes of `bytes`.
pub open spec fn le_word(bytes: Seq<u8>) -> u64
    recommends
        bytes.len() >= 8,
{
    (bytes[0] + bytes[1] * 0x100 + bytes[2] * 0x1_0000 + bytes[3] * 0x100_0000 + bytes[4]
        * 0x1_0000_0000 + bytes[5] * 0x100_0000_0000 + bytes[6] * 0x1_0000_0000_0000 + bytes[7]
        * 0x100_0000_0000_0000) as u64
}

/// The serialisation of `elements`: each element's canonical value as eight
/// little-endian bytes, in order.
pub open spec fn field_bytes(elements: Seq<u64>) -> Seq<u8> {
    Seq::new(
        8 * elements.len(),
        |k: int| le_bytes(canonical(elements[k / 8]))[k % 8],
    )
}

/// Reading back the little-endian bytes of a word gives the word.
pub proof fn lemma_le_word_of_le_bytes(word: u64)
    ensures
        le_bytes(word).len() == 8,
        le_word(le_bytes(word)) == word,
{
    assert((word % 0x100) + (word / 0x100 % 0x100) * 0x100 + (word / 0x1_0000 % 0x100) * 0x1_0000
        + (word / 0x100_0000 % 0x100) * 0x100_0000 + (word / 0x1_0000_0000 % 0x100)
        * 0x1_0000_0000 + (word / 0x100_0000_0000 % 0x100) * 0x100_0000_0000 + (word
        / 0x1_0000_0000_0000 % 0x100) * 0x1_0000_0000_0000 + (word / 0x100_0000_0000_0000 % 0x100)
        * 0x100_0000_0000_0000 == word) by (bit_vector);
}

/// Writing out the word read from eight bytes gives those bytes.
pub proof fn lemma_le_bytes_of_le_word(bytes: Seq<u8>)
    requires
        bytes.len() == 8,
    ensures
        le_bytes(le_word(bytes)) == bytes,
{
    let (b0, b1, b2, b3) = (bytes[0], bytes[1], bytes[2], bytes[3]);
    let (b4, b5, b6, b7) = (bytes[4], bytes[5], bytes[6], bytes[7]);
    let word = le_word(bytes);
    assert(word == b0 + b1 * 0x100 + b2 * 0x1_0000 + b3 * 0x100_0000 + b4 * 0x1_0000_0000 + b5
        * 0x100_0000_0000 + b6 * 0x1_0000_0000_0000 + b7 * 0x100_0000_0000_0000);
    assert(word % 0x100 == b0 && word / 0x100 % 0x100 == b1 && word / 0x1_0000 % 0x100 == b2
        && word / 0x100_0000 % 0x100 == b3 && word / 0x1_0000_0000 % 0x100 == b4 && word
        / 0x100_0000_0000 % 0x100 == b5 && word / 0x1_0000_0000_0000 % 0x100 == b6 && word
        / 0x100_0000_0000_0000 % 0x100 == b7) by (bit_vector)
        requires
            word == b0 + b1 * 0x100 + b2 * 0x1_0000 + b3 * 0x100_0000 + b4 * 0x1_0000_0000 + b5
                * 0x100_0000_0000 + b6 * 0x1_0000_0000_0000 + b7 * 0x100_0000_0000_0000,
    ;
    assert(le_bytes(word) =~= bytes);
}

/// Serialising a concatenation gives the concatenation of the
/// serialisations.
pub proof fn lemma_field_bytes_concat(left: Seq<u64>, right: Seq<u64>)
    ensures
        field_bytes(left + right) == field_bytes(left) + field_bytes(right),
{
    assert(field_bytes(left + right) =~= field_bytes(left) + field_bytes(right));
}

/// Maps a raw 64-bit word into the field: a word at or above the modulus
/// has the modulus subtracted once, any other word is returned as it is.
pub fn word_to_field(word: u64) -> (elem: u64)
    ensures
        elem == canonical(word),
        elem < ORDER,
{
    if word >= ORDER {
        word - ORDER
    } else {
        word
    }
}

/// Reads the little-endian word that starts at `bytes[at]`.
pub fn le_word_of(bytes: &[u8], at: usize) -> (word: u64)
    requires
        at + 8 <= bytes.len(),
    ensures
        word == le_word(bytes@.subrange(at as int, at + 8)),
{
    let low = bytes[at] as u64 + bytes[at + 1] as u64 * 0x100 + bytes[at + 2] as u64 * 0x1_0000
        + bytes[at + 3] as u64 * 0x100_0000;
    let high = bytes[at + 4] as u64 + bytes[at + 5] as u64 * 0x100 + bytes[at + 6] as u64
        * 0x1_0000 + bytes[at + 7] as u64 * 0x100_0000;
    low + high * 0x1_0000_0000
}

/// Appends the eight little-endian bytes of `word` to `buffer`.
pub fn push_le_bytes(buffer: &mut Vec<u8>, word: u64)
    ensures
        final(buffer)@ == old(buffer)@ + le_bytes(word),
{
    buffer.push((word % 0x100) as u8);
    buffer.push((word / 0x100 % 0x100) as u8);
    buffer.push((word / 0x1_0000 % 0x100) as u8);
    buffer.push((word / 0x100_0000 % 0x100) as u8);
    buffer.push((word / 0x1_0000_0000 % 0x100) as u8);
    buffer.push((word / 0x100_0000_0000 % 0x100) as u8);
    buffer.push((word / 0x1_0000_0000_0000 % 0x100) as u8);
    buffer.push((word / 0x100_0000_0000_0000 % 0x100) as u8);
    assert(buffer@ =~= old(buffer)@ + le_bytes(word));
}

/// Serialises `elements`: each one is brought to its canonical value and
/// written as eight little-endian bytes, in order.
pub fn to_bytes(elements: &[u64]) -> (buffer: Vec<u8>)
    ensures
        buffer@ == field_bytes(elements@),
{
    let mut buffer: Vec<u8> = Vec::new();
    let mut i: usize = 0;
    while i < elements.len()
        invariant
            i <= elements.len(),
            buffer@ == field_bytes(elements@.subrange(0, i as int)),
        decreases elements.len() - i,
    {
        let word = word_to_field(elements[i]);
        push_le_bytes(&mut buffer, word);
        assert(buffer@ =~= field_bytes(elements@.subrange(0, i + 1)));
        i = i + 1;
    }
    assert(elements@.subrange(0, i as int) =~= elements@);
    buffer
}

} // verus!
