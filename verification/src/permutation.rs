//! A byte-oriented hash as a fixed-width permutation of field elements.
//!
//! The state is serialised and hashed; each digest is hashed again, and the
//! digests, one after the other, form a stream of little-endian words. Words
//! at or above the field's modulus are dropped, so that no residue is
//! favoured; the first twelve words that are kept are the new state.

use crate::digest::all_canonical;
use crate::error::HashFamily;
use crate::field::{field_bytes, le_word, le_word_of, to_bytes, ORDER};
use crate::hash::{digest_of, family_digest};
use vstd::prelude::*;

verus! {

/// The number of field elements of a sponge state.
pub const SPONGE_WIDTH: usize = 12;

/// Block `k` of the chain of digests that starts from `state`: the digest
/// of `state` for `k == 0`, else the digest of block `k - 1`.
pub open spec fn onion_block(family: HashFamily, state: Seq<u8>, k: nat) -> Seq<u8>
    decreases k,
{
    if k == 0 {
        family_digest(family, state)
    } else {
        family_digest(family, onion_block(family, state, (k - 1) as nat))
    }
}

/// `word` where it is below the modulus, else nothing.
pub open spec fn kept(word: u64) -> Seq<u64> {
    if word < ORDER {
        seq![word]
    } else {
        Seq::empty()
    }
}

/// The word that starts at byte `8 * i` of `block`.
pub open spec fn block_word(block: Seq<u8>, i: int) -> u64 {
    le_word(block.subrange(8 * i, 8 * i + 8))
}

/// The words of a 32-byte block that rejection sampling keeps, in order.
pub open spec fn accepted_words(block: Seq<u8>) -> Seq<u64>
    recommends
        block.len() == 32,
{
    kept(block_word(block, 0)) + kept(block_word(block, 1)) + kept(block_word(block, 2)) + kept(
        block_word(block, 3),
    )
}

/// The words kept from the first `n` blocks of the chain that starts from
/// `state`, in order.
pub open spec fn onion_elems(family: HashFamily, state: Seq<u8>, n: nat) -> Seq<u64>
    decreases n,
{
    if n == 0 {
        Seq::empty()
    } else {
        onion_elems(family, state, (n - 1) as nat) + accepted_words(
            onion_block(family, state, (n - 1) as nat),
        )
    }
}

/// The first `n` blocks of the chain that starts from `state` hold a whole
/// new state.
pub open spec fn settles_within(family: HashFamily, state: Seq<u8>, n: nat) -> bool {
    onion_elems(family, state, n).len() >= SPONGE_WIDTH
}

/// The chain that starts from `state` holds a whole new state.
pub open spec fn settles(family: HashFamily, state: Seq<u8>) -> bool {
    exists|n: nat| settles_within(family, state, n)
}

/// The state that follows `input`: the first twelve words kept from the
/// chain that starts from the serialised input.
pub open spec fn permuted(family: HashFamily, input: Seq<u64>) -> Seq<u64>
    recommends
        settles(family, field_bytes(input)),
{
    let state = field_bytes(input);
    let n = choose|n: nat| settles_within(family, state, n);
    onion_elems(family, state, n).take(SPONGE_WIDTH as int)
}

/// Every word that rejection sampling keeps is a canonical field element.
pub proof fn lemma_accepted_words_canonical(block: Seq<u8>)
    ensures
        all_canonical(accepted_words(block)),
        accepted_words(block).len() <= 4,
{
}

/// Every word kept from a chain is a canonical field element.
pub proof fn lemma_onion_elems_canonical(family: HashFamily, state: Seq<u8>, n: nat)
    ensures
        all_canonical(onion_elems(family, state, n)),
    decreases n,
{
    if n > 0 {
        lemma_onion_elems_canonical(family, state, (n - 1) as nat);
        lemma_accepted_words_canonical(onion_block(family, state, (n - 1) as nat));
    }
}

/// What is kept from fewer blocks opens what is kept from more.
pub proof fn lemma_onion_elems_prefix(family: HashFamily, state: Seq<u8>, n: nat, m: nat)
    requires
        n <= m,
    ensures
        onion_elems(family, state, n).len() <= onion_elems(family, state, m).len(),
        onion_elems(family, state, m).take(onion_elems(family, state, n).len() as int)
            == onion_elems(family, state, n),
    decreases m,
{
    let short = onion_elems(family, state, n);
    let long = onion_elems(family, state, m);
    if n == m {
        assert(long.take(short.len() as int) =~= short);
    } else {
        lemma_onion_elems_prefix(family, state, n, (m - 1) as nat);
        let before = onion_elems(family, state, (m - 1) as nat);
        assert(long.take(short.len() as int) =~= before.take(short.len() as int));
    }
}

/// The new state does not depend on how many blocks are read, once they
/// hold twelve kept words.
pub proof fn lemma_permuted_from_any_bound(family: HashFamily, input: Seq<u64>, n: nat)
    requires
        settles_within(family, field_bytes(input), n),
    ensures
        settles(family, field_bytes(input)),
        permuted(family, input) == onion_elems(family, field_bytes(input), n).take(
            SPONGE_WIDTH as int,
        ),
        permuted(family, input).len() == SPONGE_WIDTH,
        all_canonical(permuted(family, input)),
{
    let state = field_bytes(input);
    let chosen = choose|c: nat| settles_within(family, state, c);
    let here = onion_elems(family, state, n);
    let there = onion_elems(family, state, chosen);
    if n <= chosen {
        lemma_onion_elems_prefix(family, state, n, chosen);
        assert(there.take(12) =~= there.take(here.len() as int).take(12));
    } else {
        lemma_onion_elems_prefix(family, state, chosen, n);
        assert(here.take(12) =~= here.take(there.len() as int).take(12));
    }
    lemma_onion_elems_canonical(family, state, n);
}

/// The words of a 32-byte block that rejection sampling keeps, in order:
/// the block is read as four little-endian words, and each word at or above
/// the modulus is dropped.
pub fn accepted_words_of(block: &[u8; 32]) -> (words: Vec<u64>)
    ensures
        words@ == accepted_words(block@),
        all_canonical(words@),
{
    let mut words: Vec<u64> = Vec::new();
    let word0 = le_word_of(block.as_slice(), 0);
    if word0 < ORDER {
        words.push(word0);
    }
    assert(words@ =~= kept(block_word(block@, 0)));
    let word1 = le_word_of(block.as_slice(), 8);
    if word1 < ORDER {
        words.push(word1);
    }
    assert(words@ =~= kept(block_word(block@, 0)) + kept(block_word(block@, 1)));
    let word2 = le_word_of(block.as_slice(), 16);
    if word2 < ORDER {
        words.push(word2);
    }
    assert(words@ =~= kept(block_word(block@, 0)) + kept(block_word(block@, 1)) + kept(
        block_word(block@, 2),
    ));
    let word3 = le_word_of(block.as_slice(), 24);
    if word3 < ORDER {
        words.push(word3);
    }
    assert(words@ =~= accepted_words(block@));
    words
}

/// The first twelve of `elems`, as a state.
pub fn state_of(elems: &Vec<u64>) -> (state: [u64; 12])
    requires
        elems@.len() >= 12,
    ensures
        state@ == elems@.take(12),
{
    let mut state: [u64; 12] = [0u64;12];
    let mut i: usize = 0;
    while i < 12
        invariant
            i <= 12,
            elems@.len() >= 12,
            forall|j: int| 0 <= j < i ==> #[trigger] state@[j] == elems@[j],
        decreases 12 - i,
    {
        state[i] = elems[i];
        i = i + 1;
    }
    assert(state@ =~= elems@.take(12));
    state
}

/// Permutes a sponge state with the hash of `family`.
///
/// The chain of digests is read until it has given twelve words below the
/// modulus; a rejected word costs nothing but the next word. The chain must
/// hold that many: `try_sponge_permute` finds out.
pub fn sponge_permute(family: HashFamily, input: [u64; 12]) -> (out: [u64; 12])
    requires
        settles(family, field_bytes(input@)),
    ensures
        out@ == permuted(family, input@),
        all_canonical(out@),
{
    let ghost start = field_bytes(input@);
    let ghost goal = choose|n: nat| settles_within(family, start, n);
    let mut state: Vec<u8> = to_bytes(input.as_slice());
    let mut elems: Vec<u64> = Vec::new();
    let ghost mut blocks: nat = 0;
    while elems.len() < SPONGE_WIDTH
        invariant
            settles_within(family, start, goal),
            elems@ == onion_elems(family, start, blocks),
            family_digest(family, state@) == onion_block(family, start, blocks),
            elems@.len() < SPONGE_WIDTH ==> blocks < goal,
        decreases goal - blocks,
    {
        let block = digest_of(family, state.as_slice());
        let mut accepted = accepted_words_of(&block);
        elems.append(&mut accepted);
        state = vstd::slice::slice_to_vec(block.as_slice());
        proof {
            blocks = blocks + 1;
            if goal <= blocks {
                lemma_onion_elems_prefix(family, start, goal, blocks);
            }
        }
    }
    proof {
        lemma_permuted_from_any_bound(family, input@, blocks);
    }
    state_of(&elems)
}

/// Whether the first `max_blocks` digests of the chain that starts from
/// the serialised `input` hold twelve words below the modulus. The chain
/// is read no further than it takes to know.
pub fn chain_settles(family: HashFamily, input: &[u64; 12], max_blocks: usize) -> (settled: bool)
    ensures
        settled == settles_within(family, field_bytes(input@), max_blocks as nat),
        settled ==> settles(family, field_bytes(input@)),
{
    let ghost start = field_bytes(input@);
    let mut state: Vec<u8> = to_bytes(input.as_slice());
    let mut found: usize = 0;
    let mut blocks: usize = 0;
    while blocks < max_blocks && found < SPONGE_WIDTH
        invariant
            blocks <= max_blocks,
            found == onion_elems(family, start, blocks as nat).len(),
            found < SPONGE_WIDTH + 4,
            family_digest(family, state@) == onion_block(family, start, blocks as nat),
        decreases max_blocks - blocks,
    {
        let block = digest_of(family, state.as_slice());
        let accepted = accepted_words_of(&block);
        proof {
            lemma_accepted_words_canonical(block@);
        }
        found = found + accepted.len();
        state = vstd::slice::slice_to_vec(block.as_slice());
        blocks = blocks + 1;
    }
    proof {
        lemma_onion_elems_prefix(family, start, blocks as nat, max_blocks as nat);
        if found >= SPONGE_WIDTH {
            assert(settles_within(family, start, max_blocks as nat));
        }
    }
    found >= SPONGE_WIDTH
}

/// Permutes a sponge state with the hash of `family`, reading at most
/// `max_blocks` digests of the chain.
///
/// Returns the new state exactly when those digests hold twelve words
/// below the modulus.
pub fn try_sponge_permute(family: HashFamily, input: [u64; 12], max_blocks: usize) -> (result:
    Option<[u64; 12]>)
    ensures
        result is Some <==> settles_within(family, field_bytes(input@), max_blocks as nat),
        result matches Some(out) ==> out@ == permuted(family, input@) && all_canonical(out@),
{
    if chain_settles(family, &input, max_blocks) {
        Some(sponge_permute(family, input))
    } else {
        None
    }
}

/// The permutation built on SHA-256.
pub struct Sha256Permutation;

impl Sha256Permutation {
    /// The state that follows `input`: the first twelve words below the
    /// modulus of the chain of SHA-256 digests that starts from the
    /// serialised input.
    pub fn permute(input: [u64; 12]) -> (out: [u64; 12])
        requires
            settles(HashFamily::Sha256, field_bytes(input@)),
        ensures
            out@ == permuted(HashFamily::Sha256, input@),
            all_canonical(out@),
    {
        sponge_permute(HashFamily::Sha256, input)
    }

    /// `permute`, reading at most `max_blocks` digests: the new state
    /// exactly when those hold twelve words below the modulus.
    pub fn try_permute(input: [u64; 12], max_blocks: usize) -> (result: Option<[u64; 12]>)
        ensures
            result is Some <==> settles_within(
                HashFamily::Sha256,
                field_bytes(input@),
                max_blocks as nat,
            ),
            result matches Some(out) ==> out@ == permuted(HashFamily::Sha256, input@)
                && all_canonical(out@),
    {
        if chain_settles(HashFamily::Sha256, &input, max_blocks) {
            Some(Self::permute(input))
        } else {
            None
        }
    }
}

} // verus!
