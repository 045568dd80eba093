//! Standard byte-oriented hashes (SHA-256, Keccak-256) adapted to a proof
//! system over the 64-bit Goldilocks field, together with the byte-layout
//! bookkeeping and contract rendering needed to check such proofs outside
//! the field.
//!
//! Field elements are carried as `u64` words. Every function canonicalises
//! its inputs, so any `u64` is accepted where a field element is expected.

pub mod config;
pub mod digest;
pub mod error;
pub mod export;
pub mod field;
pub mod gadget;
pub mod hash;
pub mod layout;
pub mod permutation;
pub mod recursion;
pub mod text;

pub use config::{HashConfig, KeccakGoldilocksConfig2, Sha256GoldilocksConfig, Widths};
pub use digest::{BytesDigest, Digest};
pub use error::{Error, HashFamily, ShapeFault, Unsupported};
pub use export::{generate_solidity_verifier, render_sigma_cap};
pub use field::{le_word_of, to_bytes, word_to_field, ORDER};
pub use gadget::{
    digest_bit_of, hash_circuit, message_wire_of, public_inputs_wiring, BitWire, HashWiring,
    PublicInputsGadget,
};
pub use hash::{sha256, AlgebraicKeccakHash, AlgebraicSha256Hash, Sha256Hash};
pub use layout::{
    generate_proof_base64, generate_verifier_config, ProofShape, QueryRoundShape, TreeOpening,
    VerifierConfig,
};
pub use permutation::{
    accepted_words_of, chain_settles, sponge_permute, try_sponge_permute, Sha256Permutation,
    SPONGE_WIDTH,
};
pub use recursion::padding_gates;
