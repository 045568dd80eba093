//! The failures that the library reports. None of them is transient: each
//! names a configuration or a proof shape outside what the library handles,
//! or a serialisation that does not have the predicted length.

use vstd::prelude::*;

verus! {

/// The byte-oriented hash behind an adapter.
#[derive(Clone, Copy, Debug, PartialEq, Eq, Structural)]
pub enum HashFamily {
    Sha256,
    Keccak256,
}

/// An operation or configuration that has no implementation.
#[derive(Clone, Copy, Debug, PartialEq, Eq, Structural)]
pub enum Unsupported {
    /// The in-circuit permutation of this hash family.
    CircuitPermutation(HashFamily),
    /// The in-circuit hash of this hash family.
    HashCircuit(HashFamily),
    /// A digest of this many bytes; only 25 is handled.
    DigestSize(usize),
    /// A base field of this many bits; only 64 is handled.
    FieldBits(usize),
    /// An extension field of this many bits; only 128 is handled.
    ExtensionBits(usize),
}

/// What keeps a proof from being read into structural counts.
#[derive(Clone, Copy, Debug, PartialEq, Eq, Structural)]
pub enum ShapeFault {
    /// The proof holds no query round.
    NoQueryRound,
    /// Query round `round` holds `found` folding steps, not two.
    FoldingSteps { round: usize, found: usize },
    /// The first query round opens `found` initial trees, fewer than four.
    InitialTrees { found: usize },
    /// The commit phase holds no cap.
    NoCommitRound,
}

/// A failure of the library.
#[derive(Clone, Copy, Debug, PartialEq, Eq, Structural)]
pub enum Error {
    UnsupportedOperation(Unsupported),
    UnsupportedShape(ShapeFault),
    /// The serialisation holds `actual` bytes where the structural counts
    /// predict `predicted`; `predicted` is `None` where the prediction
    /// exceeds `usize::MAX`.
    IntegrityMismatch { predicted: Option<usize>, actual: usize },
}

} // verus!
