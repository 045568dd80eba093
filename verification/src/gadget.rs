//! The wiring of the circuit that hashes the public inputs.
//!
//! The circuit proves `digest == hash_no_pad(inputs)` for SHA-256. It is
//! made of a bit-level SHA-256 circuit, sized for 64 message bits for each
//! input, whose message bits are wired to the bits of the inputs and whose
//! digest bits are summed into four field elements. This module decides
//! which bit goes where; it builds no circuit itself.

use crate::digest::{digest_words, zero_words};
use crate::error::{Error, HashFamily, Unsupported};
use crate::field::{canonical, field_bytes, le_bytes, le_word, ORDER};
use crate::hash::{algebraic_hash, sha256_digest};
use vstd::prelude::*;

verus! {

/// One bit of one input: bit `bit`, counted from the least significant, of
/// input `input`.
#[derive(Clone, Copy, Debug, PartialEq, Eq, Structural)]
pub struct BitWire {
    pub input: usize,
    pub bit: usize,
}

/// The wiring of a hash circuit for a given number of inputs.
#[derive(Clone, Debug, PartialEq, Eq)]
pub struct HashWiring {
    /// The number of message bits that the hash circuit is made for.
    pub message_bits: usize,
    /// For each message bit of the hash circuit, in order, the input bit
    /// that it is connected to.
    pub message: Vec<BitWire>,
    /// For each element of the digest, the digest bits of the hash circuit
    /// that make it up, the least significant first.
    pub digest: Vec<Vec<usize>>,
}

/// What the circuit for the hash of the public inputs is made of.
#[derive(Clone, Debug, PartialEq, Eq)]
pub enum PublicInputsGadget {
    /// There is no input: every element of the digest is the constant
    /// zero, and no hash circuit is made.
    Zero,
    /// There are inputs: a hash circuit is made and wired.
    Hash(HashWiring),
}

/// The position that mirrors `n` inside its byte: bits are counted from
/// the most significant in a message and from the least significant in a
/// word.
pub open spec fn mirrored(n: int) -> int {
    n / 8 * 8 + 7 - n % 8
}

/// The input bit that message bit `position` is connected to.
pub open spec fn message_wire(position: int) -> BitWire {
    BitWire { input: (position / 64) as usize, bit: mirrored(position % 64) as usize }
}

/// The digest bit that is bit `bit` of element `element`.
pub open spec fn digest_bit(element: int, bit: int) -> int {
    element * 64 + mirrored(bit)
}

impl HashWiring {
    /// The wiring is that of the circuit for `inputs` inputs: 64 message
    /// bits for each, every message bit wired to its input bit, and four
    /// elements of 64 digest bits each.
    pub open spec fn wires(&self, inputs: int) -> bool {
        &&& self.message_bits == 64 * inputs
        &&& self.message@.len() == 64 * inputs
        &&& forall|p: int| 0 <= p < 64 * inputs ==> #[trigger] self.message@[p] == message_wire(p)
        &&& self.digest@.len() == 4
        &&& forall|e: int| 0 <= e < 4 ==> (#[trigger] self.digest@[e])@.len() == 64
        &&& forall|e: int, n: int|
            0 <= e < 4 && 0 <= n < 64 ==> #[trigger] self.digest@[e]@[n] == digest_bit(e, n)
    }
}

/// The input bit that message bit `position` is connected to.
pub fn message_wire_of(position: usize) -> (wire: BitWire)
    ensures
        wire == message_wire(position as int),
        wire.bit < 64,
{
    let within = position % 64;
    BitWire { input: position / 64, bit: within / 8 * 8 + 7 - within % 8 }
}

/// The digest bit that is bit `bit` of element `element`.
pub fn digest_bit_of(element: usize, bit: usize) -> (position: usize)
    requires
        element < 4,
        bit < 64,
    ensures
        position == digest_bit(element as int, bit as int),
        position < 256,
{
    element * 64 + bit / 8 * 8 + 7 - bit % 8
}

/// The wiring of the circuit that hashes `inputs` public inputs with
/// SHA-256.
pub fn public_inputs_wiring(inputs: usize) -> (gadget: PublicInputsGadget)
    requires
        64 * inputs <= usize::MAX,
    ensures
        inputs == 0 <==> gadget is Zero,
        gadget matches PublicInputsGadget::Hash(wiring) ==> wiring.wires(inputs as int),
{
    if inputs == 0 {
        return PublicInputsGadget::Zero;
    }
    let message_bits = 64 * inputs;
    let mut message: Vec<BitWire> = Vec::new();
    let mut p: usize = 0;
    while p < message_bits
        invariant
            p <= message_bits,
            message@.len() == p,
            forall|q: int| 0 <= q < p ==> #[trigger] message@[q] == message_wire(q),
        decreases message_bits - p,
    {
        message.push(message_wire_of(p));
        p = p + 1;
    }
    let mut digest: Vec<Vec<usize>> = Vec::new();
    let mut e: usize = 0;
    while e < 4
        invariant
            e <= 4,
            digest@.len() == e,
            forall|d: int| 0 <= d < e ==> (#[trigger] digest@[d])@.len() == 64,
            forall|d: int, n: int|
                0 <= d < e && 0 <= n < 64 ==> #[trigger] digest@[d]@[n] == digest_bit(d, n),
        decreases 4 - e,
    {
        let mut bits: Vec<usize> = Vec::new();
        let mut n: usize = 0;
        while n < 64
            invariant
                n <= 64,
                e < 4,
                bits@.len() == n,
                forall|m: int| 0 <= m < n ==> #[trigger] bits@[m] == digest_bit(e as int, m),
            decreases 64 - n,
        {
            bits.push(digest_bit_of(e, n));
            n = n + 1;
        }
        digest.push(bits);
        e = e + 1;
    }
    PublicInputsGadget::Hash(HashWiring { message_bits, message, digest })
}

/// The wiring of the circuit that hashes `inputs` public inputs with the
/// hash of `family`.
///
/// Only SHA-256 has a hash circuit. For Keccak-256 the call fails with
/// `UnsupportedOperation`: no other circuit is put in its place.
pub fn hash_circuit(family: HashFamily, inputs: usize) -> (result: Result<
    PublicInputsGadget,
    Error,
>)
    requires
        64 * inputs <= usize::MAX,
    ensures
        result is Ok <==> family == HashFamily::Sha256,
        match result {
            Ok(gadget) => {
                &&& inputs == 0 <==> gadget is Zero
                &&& gadget matches PublicInputsGadget::Hash(wiring) ==> wiring.wires(
                    inputs as int,
                )
            },
            Err(fault) => fault == Error::UnsupportedOperation(Unsupported::HashCircuit(family)),
        },
{
    match family {
        HashFamily::Sha256 => Ok(public_inputs_wiring(inputs)),
        HashFamily::Keccak256 => Err(
            Error::UnsupportedOperation(Unsupported::HashCircuit(HashFamily::Keccak256)),
        ),
    }
}

/// Bit `bit` of `word`, counted from the least significant.
pub open spec fn word_bit(word: u64, bit: u64) -> bool {
    (word >> bit) & 1 == 1
}

/// One for a set bit, zero for a clear one.
pub open spec fn bit_value(bit: bool) -> int {
    if bit {
        1
    } else {
        0
    }
}

/// The byte made of eight bits, the most significant first.
pub open spec fn byte_of_bits(bits: Seq<bool>) -> u8
    recommends
        bits.len() == 8,
{
    (bit_value(bits[0]) * 128 + bit_value(bits[1]) * 64 + bit_value(bits[2]) * 32 + bit_value(
        bits[3],
    ) * 16 + bit_value(bits[4]) * 8 + bit_value(bits[5]) * 4 + bit_value(bits[6]) * 2
        + bit_value(bits[7])) as u8
}

/// The bytes that a hash circuit reads from its message bits: each run of
/// eight bits is one byte, the most significant bit first.
pub open spec fn bytes_of_bits(bits: Seq<bool>) -> Seq<u8> {
    Seq::new(bits.len() / 8, |m: int| byte_of_bits(bits.subrange(8 * m, 8 * m + 8)))
}

/// The bits in which a hash circuit gives its digest: the bits of each
/// byte, the most significant first.
pub open spec fn bits_of_bytes(bytes: Seq<u8>) -> Seq<bool> {
    Seq::new(8 * bytes.len(), |q: int| word_bit(bytes[q / 8] as u64, (7 - q % 8) as u64))
}

/// The number whose bits are `bits`, the least significant first.
pub open spec fn le_sum(bits: Seq<bool>) -> nat
    decreases bits.len(),
{
    if bits.len() == 0 {
        0
    } else {
        (bit_value(bits[0]) + 2 * le_sum(bits.drop_first())) as nat
    }
}

/// The message bits of a hash circuit wired by `message` to the inputs
/// `inputs`, each input split into the 64 bits of its canonical value.
pub open spec fn wired_message(message: Seq<BitWire>, inputs: Seq<u64>) -> Seq<bool> {
    Seq::new(
        message.len(),
        |p: int| word_bit(canonical(inputs[message[p].input as int]), message[p].bit as u64),
    )
}

/// The field element that the digest bits at `positions` sum to, the
/// least significant first.
pub open spec fn summed_element(digest_bits: Seq<bool>, positions: Seq<usize>) -> u64 {
    (le_sum(Seq::new(positions.len(), |n: int| digest_bits[positions[n] as int])) % (
    ORDER as nat)) as u64
}

/// The digest that the wired circuit gives for `inputs`, where its hash
/// circuit computes SHA-256 of the message that its message bits spell.
pub open spec fn wired_digest(wiring: HashWiring, inputs: Seq<u64>) -> Seq<u64> {
    let message = bytes_of_bits(wired_message(wiring.message@, inputs));
    let digest_bits = bits_of_bytes(sha256_digest(message));
    Seq::new(4, |e: int| summed_element(digest_bits, wiring.digest@[e]@))
}

/// The digest that the gadget gives for `inputs`.
pub open spec fn gadget_digest(gadget: PublicInputsGadget, inputs: Seq<u64>) -> Seq<u64> {
    match gadget {
        PublicInputsGadget::Zero => zero_words(),
        PublicInputsGadget::Hash(wiring) => wired_digest(wiring, inputs),
    }
}

/// A bit is worth zero or one, and a byte is the weighted sum of its
/// bits.
proof fn lemma_bits_of_byte(byte: u64)
    by (bit_vector)
    requires
        byte < 256,
    ensures
        forall|k: u64| k < 64 ==> (#[trigger] (byte >> k)) & 1 <= 1,
        ((byte >> 7) & 1) * 128 + ((byte >> 6) & 1) * 64 + ((byte >> 5) & 1) * 32 + ((byte >> 4)
            & 1) * 16 + ((byte >> 3) & 1) * 8 + ((byte >> 2) & 1) * 4 + ((byte >> 1) & 1) * 2 + (
        byte & 1) == byte,
        (byte >> 0) == byte,
{
}

/// Bit `k` of byte `j` of a word is bit `8 * j + k` of the word.
proof fn lemma_bit_of_byte_of_word(word: u64, j: u64, k: u64)
    by (bit_vector)
    requires
        j < 8,
        k < 8,
    ensures
        ((((word >> (8 * j)) & 0xff) >> k) & 1) == ((word >> (8 * j + k)) & 1),
        (word >> (8 * j)) & 0xff < 256,
{
}

/// The bytes of a word by shifting are its bytes by division.
proof fn lemma_bytes_by_shift(word: u64)
    by (bit_vector)
    ensures
        (word >> 0) & 0xff == word % 0x100,
        (word >> 8) & 0xff == word / 0x100 % 0x100,
        (word >> 16) & 0xff == word / 0x1_0000 % 0x100,
        (word >> 24) & 0xff == word / 0x100_0000 % 0x100,
        (word >> 32) & 0xff == word / 0x1_0000_0000 % 0x100,
        (word >> 40) & 0xff == word / 0x100_0000_0000 % 0x100,
        (word >> 48) & 0xff == word / 0x1_0000_0000_0000 % 0x100,
        (word >> 56) & 0xff == word / 0x100_0000_0000_0000 % 0x100,
{
}

/// Byte `j` of a word is the word shifted down by `j` bytes and cut to
/// eight bits.
proof fn lemma_byte_by_shift(word: u64, j: u64)
    requires
        j < 8,
    ensures
        le_bytes(word)[j as int] == (word >> (8 * j)) & 0xff,
{
    lemma_bytes_by_shift(word);
    if j == 0 {
    } else if j == 1 {
    } else if j == 2 {
    } else if j == 3 {
    } else if j == 4 {
    } else if j == 5 {
    } else if j == 6 {
    } else {
        assert(j == 7);
    }
}

/// Eight bits of a word, taken from the most significant bit of byte `j`
/// down, spell that byte.
proof fn lemma_byte_of_word_bits(word: u64, j: u64, bits: Seq<bool>)
    requires
        j < 8,
        bits.len() == 8,
        forall|k: int| 0 <= k < 8 ==> #[trigger] bits[k] == word_bit(word, (8 * j + 7 - k) as u64),
    ensures
        byte_of_bits(bits) == le_bytes(word)[j as int],
{
    let byte = (word >> (8 * j)) & 0xff;
    lemma_bit_of_byte_of_word(word, j, 0);
    lemma_bit_of_byte_of_word(word, j, 1);
    lemma_bit_of_byte_of_word(word, j, 2);
    lemma_bit_of_byte_of_word(word, j, 3);
    lemma_bit_of_byte_of_word(word, j, 4);
    lemma_bit_of_byte_of_word(word, j, 5);
    lemma_bit_of_byte_of_word(word, j, 6);
    lemma_bit_of_byte_of_word(word, j, 7);
    lemma_bits_of_byte(byte);
    assert(bit_value(bits[0]) == (byte >> 7) & 1);
    assert(bit_value(bits[1]) == (byte >> 6) & 1);
    assert(bit_value(bits[2]) == (byte >> 5) & 1);
    assert(bit_value(bits[3]) == (byte >> 4) & 1);
    assert(bit_value(bits[4]) == (byte >> 3) & 1);
    assert(bit_value(bits[5]) == (byte >> 2) & 1);
    assert(bit_value(bits[6]) == (byte >> 1) & 1);
    assert(bit_value(bits[7]) == (byte >> 0) & 1);
    assert(byte_of_bits(bits) == byte);
    lemma_byte_by_shift(word, j);
}

/// The message that the wired hash circuit reads is the serialisation of
/// the inputs.
pub proof fn lemma_message_is_serialisation(wiring: HashWiring, inputs: Seq<u64>)
    requires
        wiring.wires(inputs.len() as int),
    ensures
        bytes_of_bits(wired_message(wiring.message@, inputs)) == field_bytes(inputs),
{
    let message = wired_message(wiring.message@, inputs);
    let bytes = bytes_of_bits(message);
    assert(bytes.len() == 8 * inputs.len());
    assert forall|m: int| 0 <= m < bytes.len() implies bytes[m] == field_bytes(inputs)[m] by {
        let word = canonical(inputs[m / 8]);
        let j = (m % 8) as u64;
        let bits = message.subrange(8 * m, 8 * m + 8);
        assert forall|k: int| 0 <= k < 8 implies #[trigger] bits[k] == word_bit(
            word,
            (8 * j + 7 - k) as u64,
        ) by {
            let p = 8 * m + k;
            assert(wiring.message@[p] == message_wire(p));
            assert(p / 64 == m / 8);
            assert(mirrored(p % 64) == 8 * j + 7 - k);
        }
        lemma_byte_of_word_bits(word, j, bits);
    }
    assert(bytes =~= field_bytes(inputs));
}

/// Halving a word moves every bit down by one place.
proof fn lemma_halved(word: u64, n: u64, len: u64)
    by (bit_vector)
    ensures
        n < 63 ==> ((word >> 1) >> n) & 1 == (word >> ((n + 1) as u64)) & 1,
        2 * (word >> 1) + (word & 1) == word,
        (word >> 0) & 1 == word & 1,
        word & 1 <= 1,
        1 <= len < 64 && word >> len == 0 ==> (word >> 1) >> ((len - 1) as u64) == 0,
        (word >> 1) >> 63 == 0,
        word >> 0 == word,
{
}

/// The first `len` bits of `word`, the least significant first.
pub open spec fn low_bits(word: u64, len: nat) -> Seq<bool> {
    Seq::new(len, |n: int| word_bit(word, n as u64))
}

/// A word that has no bit set from `len` on is the sum of its first `len`
/// bits.
proof fn lemma_le_sum_of_bits(word: u64, len: nat)
    requires
        len <= 64,
        len < 64 ==> word >> (len as u64) == 0,
    ensures
        le_sum(low_bits(word, len)) == word,
    decreases len,
{
    let bits = low_bits(word, len);
    lemma_halved(word, 0, len as u64);
    if len > 0 {
        let half = word >> 1;
        assert(bits.drop_first() =~= low_bits(half, (len - 1) as nat)) by {
            assert forall|n: int| 0 <= n < len - 1 implies bits.drop_first()[n] == low_bits(
                half,
                (len - 1) as nat,
            )[n] by {
                lemma_halved(word, n as u64, len as u64);
            }
        }
        lemma_le_sum_of_bits(half, (len - 1) as nat);
    }
}

/// The digest bit that is wired to bit `n` of element `element` is bit `n`
/// of the word that the digest bytes of that element spell.
proof fn lemma_digest_bit_of_word(digest: Seq<u8>, element: int, n: int)
    requires
        digest.len() == 32,
        0 <= element < 4,
        0 <= n < 64,
    ensures
        bits_of_bytes(digest)[digest_bit(element, n)] == word_bit(
            le_word(digest.subrange(8 * element, 8 * element + 8)),
            n as u64,
        ),
{
    let group = digest.subrange(8 * element, 8 * element + 8);
    let word = le_word(group);
    let j = (n / 8) as u64;
    let k = (n % 8) as u64;
    let q = digest_bit(element, n);
    assert(q / 8 == 8 * element + j);
    assert(7 - q % 8 == k);
    let byte = digest[8 * element + j];
    assert(bits_of_bytes(digest)[q] == word_bit(byte as u64, k));
    crate::field::lemma_le_bytes_of_le_word(group);
    assert(byte == group[j as int]);
    lemma_byte_by_shift(word, j);
    lemma_bit_of_byte_of_word(word, j, k);
    assert((8 * j + k) as u64 == n as u64);
}

/// Summing the wired digest bits of element `element` gives the field
/// element that the digest bytes of that element stand for.
pub proof fn lemma_summed_element(wiring: HashWiring, inputs: int, digest: Seq<u8>, element: int)
    requires
        wiring.wires(inputs),
        digest.len() == 32,
        0 <= element < 4,
    ensures
        summed_element(bits_of_bytes(digest), wiring.digest@[element]@) == digest_words(
            digest,
        )[element],
{
    let digest_bits = bits_of_bytes(digest);
    let positions = wiring.digest@[element]@;
    let word = le_word(digest.subrange(8 * element, 8 * element + 8));
    let picked = Seq::new(positions.len(), |n: int| digest_bits[positions[n] as int]);
    assert forall|n: int| 0 <= n < 64 implies picked[n] == low_bits(word, 64)[n] by {
        assert(positions[n] == digest_bit(element, n));
        lemma_digest_bit_of_word(digest, element, n);
    }
    assert(picked =~= low_bits(word, 64));
    lemma_le_sum_of_bits(word, 64);
    assert(word as nat % (ORDER as nat) == canonical(word));
}

/// The wired circuit gives the hash of its inputs: for no input the
/// all-zero digest, else the SHA-256 digest of the serialised inputs read
/// as four field elements, provided that its hash circuit computes SHA-256
/// of the message that its message bits spell.
pub proof fn lemma_gadget_matches_hash(gadget: PublicInputsGadget, inputs: Seq<u64>)
    requires
        inputs.len() == 0 <==> gadget is Zero,
        gadget matches PublicInputsGadget::Hash(wiring) ==> wiring.wires(inputs.len() as int),
        sha256_digest(field_bytes(inputs)).len() == 32,
    ensures
        gadget_digest(gadget, inputs) == algebraic_hash(HashFamily::Sha256, inputs),
{
    match gadget {
        PublicInputsGadget::Zero => {},
        PublicInputsGadget::Hash(wiring) => {
            lemma_message_is_serialisation(wiring, inputs);
            let digest = sha256_digest(field_bytes(inputs));
            lemma_summed_element(wiring, inputs.len() as int, digest, 0);
            lemma_summed_element(wiring, inputs.len() as int, digest, 1);
            lemma_summed_element(wiring, inputs.len() as int, digest, 2);
            lemma_summed_element(wiring, inputs.len() as int, digest, 3);
            assert(wired_digest(wiring, inputs) =~= digest_words(digest));
        },
    }
}

} // verus!
