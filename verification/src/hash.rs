//! A byte-oriented hash as leaf hash and as tree combiner over field
//! elements.

use crate::digest::{digest_words, zero_words, BytesDigest, Digest};
use crate::error::{Error, HashFamily, Unsupported};
use crate::field::{field_bytes, lemma_field_bytes_concat, to_bytes};
use crate::gadget::{public_inputs_wiring, PublicInputsGadget};
use vstd::prelude::*;

verus! {

/// The SHA-256 digest of a message: 32 bytes.
pub uninterp spec fn sha256_digest(message: Seq<u8>) -> Seq<u8>;

/// The Keccak-256 digest of a message: 32 bytes.
pub uninterp spec fn keccak256_digest(message: Seq<u8>) -> Seq<u8>;

/// The SHA-256 digest of `s`, computed by the `sha2` crate (`Sha256::new`,
/// `update`, `finalize`): 32 bytes that depend on the message alone.
#[verifier::external_body]
pub fn sha256(s: &[u8]) -> (digest: [u8; 32])
    ensures
        digest@ == sha256_digest(s@),
{
    let mut hasher = <sha2::Sha256 as sha2::Digest>::new();
    sha2::Digest::update(&mut hasher, s);
    sha2::Digest::finalize(hasher).into()
}

/// The Keccak-256 digest of `s`, computed by `keccak_hash::keccak`: 32
/// bytes that depend on the message alone.
#[verifier::external_body]
pub(crate) fn keccak256(s: &[u8]) -> (digest: [u8; 32])
    ensures
        digest@ == keccak256_digest(s@),
{
    keccak_hash::keccak(s).0
}

/// The digest of `message` under `family`.
pub open spec fn family_digest(family: HashFamily, message: Seq<u8>) -> Seq<u8> {
    match family {
        HashFamily::Sha256 => sha256_digest(message),
        HashFamily::Keccak256 => keccak256_digest(message),
    }
}

/// The digest of `message` under `family`.
pub fn digest_of(family: HashFamily, message: &[u8]) -> (digest: [u8; 32])
    ensures
        digest@ == family_digest(family, message@),
{
    match family {
        HashFamily::Sha256 => sha256(message),
        HashFamily::Keccak256 => keccak256(message),
    }
}

/// The field-element hash of `input` under `family`: the all-zero digest
/// for no input, else the digest of the serialised input read as four
/// field elements.
pub open spec fn algebraic_hash(family: HashFamily, input: Seq<u64>) -> Seq<u64> {
    if input.len() == 0 {
        zero_words()
    } else {
        digest_words(family_digest(family, field_bytes(input)))
    }
}

/// The raw-bytes hash of `input` under `family`, cut to `n` bytes.
pub open spec fn bytes_hash(family: HashFamily, input: Seq<u64>, n: int) -> Seq<u8> {
    family_digest(family, field_bytes(input)).take(n)
}

/// Hashes `input` to four field elements under `family`.
pub fn algebraic_hash_no_pad(family: HashFamily, input: &[u64]) -> (out: Digest)
    ensures
        out@ == algebraic_hash(family, input@),
        out.wf(),
{
    if input.len() == 0 {
        return Digest::zero();
    }
    let buffer = to_bytes(input);
    let digest = digest_of(family, buffer.as_slice());
    Digest::from_bytes(digest.as_slice())
}

/// Combines two digests under `family`: the hash of the eight elements of
/// `left` and `right`, in that order.
pub fn algebraic_two_to_one(family: HashFamily, left: Digest, right: Digest) -> (out: Digest)
    ensures
        out@ == algebraic_hash(family, left@ + right@),
        out.wf(),
{
    let mut input: Vec<u64> = Vec::new();
    let mut i: usize = 0;
    while i < 4
        invariant
            i <= 4,
            input@ == left@.take(i as int),
        decreases 4 - i,
    {
        input.push(left.elements[i]);
        assert(input@ =~= left@.take(i + 1));
        i = i + 1;
    }
    assert(left@.take(4) =~= left@);
    i = 0;
    while i < 4
        invariant
            i <= 4,
            input@ == left@ + right@.take(i as int),
        decreases 4 - i,
    {
        input.push(right.elements[i]);
        assert(input@ =~= left@ + right@.take(i + 1));
        i = i + 1;
    }
    assert(right@.take(4) =~= right@);
    algebraic_hash_no_pad(family, input.as_slice())
}

/// SHA-256 as a hash from field elements to the first `N` bytes of the
/// digest.
#[derive(Clone, Copy, Debug, PartialEq, Eq)]
pub struct Sha256Hash<const N: usize>;

impl<const N: usize> Sha256Hash<N> {
    /// The number of bytes of a hash value.
    pub fn hash_size() -> (size: usize)
        ensures
            size == N,
    {
        N
    }

    /// The first `N` bytes of the SHA-256 digest of the serialised input.
    /// No input is no special case here: it hashes the empty byte string.
    pub fn hash_no_pad(input: &[u64]) -> (out: BytesDigest<N>)
        requires
            N <= 32,
        ensures
            out@ == bytes_hash(HashFamily::Sha256, input@, N as int),
    {
        let buffer = to_bytes(input);
        let digest = sha256(buffer.as_slice());
        BytesDigest::from_bytes(digest.as_slice())
    }

    /// The hash of the public inputs: `hash_no_pad`.
    pub fn hash_public_inputs(input: &[u64]) -> (out: BytesDigest<N>)
        requires
            N <= 32,
        ensures
            out@ == bytes_hash(HashFamily::Sha256, input@, N as int),
    {
        Self::hash_no_pad(input)
    }

    /// Combines two tree nodes: the first `N` bytes of the SHA-256 digest
    /// of the bytes of `left` followed by those of `right`.
    pub fn two_to_one(left: BytesDigest<N>, right: BytesDigest<N>) -> (out: BytesDigest<N>)
        requires
            N <= 32,
        ensures
            out@ == sha256_digest(left@ + right@).take(N as int),
    {
        let mut joined: Vec<u8> = left.to_bytes();
        let mut tail: Vec<u8> = right.to_bytes();
        joined.append(&mut tail);
        let digest = sha256(joined.as_slice());
        BytesDigest::from_bytes(digest.as_slice())
    }
}

/// SHA-256 as a hash from field elements to four field elements.
#[derive(Clone, Copy, Debug, PartialEq, Eq)]
pub struct AlgebraicSha256Hash;

impl AlgebraicSha256Hash {
    /// The number of bytes of the digest that a hash value is read from.
    pub const HASH_SIZE: usize = 32;

    /// The all-zero digest for no input; else the SHA-256 digest of the
    /// serialised input, read as four field elements.
    pub fn hash_no_pad(input: &[u64]) -> (out: Digest)
        ensures
            out@ == algebraic_hash(HashFamily::Sha256, input@),
            input@.len() == 0 ==> out@ == zero_words(),
            out.wf(),
    {
        algebraic_hash_no_pad(HashFamily::Sha256, input)
    }

    /// The hash of the public inputs: `hash_no_pad`.
    pub fn hash_public_inputs(input: &[u64]) -> (out: Digest)
        ensures
            out@ == algebraic_hash(HashFamily::Sha256, input@),
            out.wf(),
    {
        Self::hash_no_pad(input)
    }

    /// Combines two tree nodes: `hash_no_pad` of the elements of `left`
    /// followed by those of `right`.
    pub fn two_to_one(left: Digest, right: Digest) -> (out: Digest)
        ensures
            out@ == algebraic_hash(HashFamily::Sha256, left@ + right@),
            out.wf(),
    {
        algebraic_two_to_one(HashFamily::Sha256, left, right)
    }

    /// The permutation inside a circuit. There is none for SHA-256: the
    /// call always fails, and says so.
    pub fn permute_swapped() -> (result: Result<(), Error>)
        ensures
            result == Err::<(), Error>(
                Error::UnsupportedOperation(Unsupported::CircuitPermutation(HashFamily::Sha256)),
            ),
    {
        Err(Error::UnsupportedOperation(Unsupported::CircuitPermutation(HashFamily::Sha256)))
    }

    /// The wiring of the circuit that proves `digest == hash_no_pad(inputs)`
    /// for `inputs` public inputs: constant zeros for no input, else a
    /// SHA-256 circuit of 64 message bits for each input.
    pub fn public_inputs_hash(inputs: usize) -> (gadget: PublicInputsGadget)
        requires
            64 * inputs <= usize::MAX,
        ensures
            inputs == 0 <==> gadget is Zero,
            gadget matches PublicInputsGadget::Hash(wiring) ==> wiring.wires(inputs as int),
    {
        public_inputs_wiring(inputs)
    }
}

/// Keccak-256 as a hash from field elements to four field elements.
#[derive(Clone, Copy, Debug, PartialEq, Eq)]
pub struct AlgebraicKeccakHash;

impl AlgebraicKeccakHash {
    /// The number of bytes of the digest that a hash value is read from.
    pub const HASH_SIZE: usize = 32;

    /// The all-zero digest for no input; else the Keccak-256 digest of the
    /// serialised input, read as four field elements.
    pub fn hash_no_pad(input: &[u64]) -> (out: Digest)
        ensures
            out@ == algebraic_hash(HashFamily::Keccak256, input@),
            input@.len() == 0 ==> out@ == zero_words(),
            out.wf(),
    {
        algebraic_hash_no_pad(HashFamily::Keccak256, input)
    }

    /// The hash of the public inputs. It is taken with SHA-256, the one
    /// family that has a circuit for it.
    pub fn hash_public_inputs(input: &[u64]) -> (out: Digest)
        ensures
            out@ == algebraic_hash(HashFamily::Sha256, input@),
            out.wf(),
    {
        AlgebraicSha256Hash::hash_public_inputs(input)
    }

    /// Combines two tree nodes: `hash_no_pad` of the elements of `left`
    /// followed by those of `right`.
    pub fn two_to_one(left: Digest, right: Digest) -> (out: Digest)
        ensures
            out@ == algebraic_hash(HashFamily::Keccak256, left@ + right@),
            out.wf(),
    {
        algebraic_two_to_one(HashFamily::Keccak256, left, right)
    }

    /// The permutation inside a circuit. There is none for Keccak-256: the
    /// call always fails, and says so.
    pub fn permute_swapped() -> (result: Result<(), Error>)
        ensures
            result == Err::<(), Error>(
                Error::UnsupportedOperation(
                    Unsupported::CircuitPermutation(HashFamily::Keccak256),
                ),
            ),
    {
        Err(Error::UnsupportedOperation(Unsupported::CircuitPermutation(HashFamily::Keccak256)))
    }

    /// The wiring of the circuit that hashes the public inputs. Keccak-256
    /// has no circuit of its own: the wiring is that of the SHA-256
    /// circuit, as `hash_public_inputs` is the SHA-256 hash.
    pub fn public_inputs_hash(inputs: usize) -> (gadget: PublicInputsGadget)
        requires
            64 * inputs <= usize::MAX,
        ensures
            inputs == 0 <==> gadget is Zero,
            gadget matches PublicInputsGadget::Hash(wiring) ==> wiring.wires(inputs as int),
    {
        AlgebraicSha256Hash::public_inputs_hash(inputs)
    }
}

/// Equal inputs have equal hashes, under either family.
pub proof fn lemma_hash_is_deterministic(
    family: HashFamily,
    input1: Seq<u64>,
    input2: Seq<u64>,
    out1: Digest,
    out2: Digest,
)
    requires
        input1 == input2,
        out1@ == algebraic_hash(family, input1),
        out2@ == algebraic_hash(family, input2),
    ensures
        out1 == out2,
{
    assert(out1.elements =~= out2.elements);
}

/// No input hashes to the all-zero digest, under either family.
pub proof fn lemma_hash_of_nothing(family: HashFamily)
    ensures
        algebraic_hash(family, Seq::<u64>::empty()) == zero_words(),
{
}

/// Combining two digests hashes the serialisation of the one followed by
/// that of the other.
pub proof fn lemma_two_to_one_bytes(family: HashFamily, left: Seq<u64>, right: Seq<u64>)
    requires
        left.len() == 4,
        right.len() == 4,
    ensures
        algebraic_hash(family, left + right) == digest_words(
            family_digest(family, field_bytes(left) + field_bytes(right)),
        ),
{
    lemma_field_bytes_concat(left, right);
}

} // verus!
