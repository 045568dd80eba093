//! The structural counts of a proof, and the serialised length that they
//! predict.

use crate::error::{Error, ShapeFault};
use vstd::arithmetic::overflow::CheckedUsize;
use vstd::prelude::*;

verus! {

/// Bytes of one digest in a serialised proof.
pub const HASH_SIZE: usize = 25;

/// Bytes of one base-field element in a serialised proof.
pub const FIELD_SIZE: usize = 8;

/// Bytes of one extension-field element in a serialised proof.
pub const EXT_FIELD_SIZE: usize = 16;

/// Bytes that encode the length of one Merkle path.
pub const MERKLE_HEIGHT_SIZE: usize = 1;

/// Folding steps that every query round must hold.
pub const FOLDING_STEPS: usize = 2;

/// Initial trees that are read from the first query round.
pub const INITIAL_TREES: usize = 4;

/// One Merkle opening: how many values it opens and how many siblings its
/// path holds.
#[derive(Clone, Copy, Debug, PartialEq, Eq, Structural)]
pub struct TreeOpening {
    pub values: usize,
    pub siblings: usize,
}

/// The shape of one query round.
#[derive(Clone, Debug, PartialEq, Eq)]
pub struct QueryRoundShape {
    /// The openings of the initial trees: constants and sigmas, wires,
    /// permutation and partial products, quotient.
    pub initial_trees: Vec<TreeOpening>,
    /// The openings of the folding steps.
    pub steps: Vec<TreeOpening>,
}

/// The shape of a proof: the lengths of its parts and nothing of their
/// contents.
#[derive(Clone, Debug, PartialEq, Eq)]
pub struct ProofShape {
    pub wires_cap: usize,
    pub plonk_zs_partial_products_cap: usize,
    pub quotient_polys_cap: usize,
    pub openings_constants: usize,
    pub openings_plonk_sigmas: usize,
    pub openings_wires: usize,
    pub openings_plonk_zs: usize,
    pub openings_plonk_zs_next: usize,
    pub openings_partial_products: usize,
    pub openings_quotient_polys: usize,
    /// The number of entries of each commit-phase cap.
    pub commit_phase_merkle_caps: Vec<usize>,
    pub query_rounds: Vec<QueryRoundShape>,
    pub final_poly_coeffs: usize,
}

/// The structural counts of one proof, with the sizes of the configuration
/// that produced it.
#[derive(Clone, Copy, Debug, PartialEq, Eq, Structural)]
pub struct VerifierConfig {
    pub hash_size: usize,
    pub field_size: usize,
    pub ext_field_size: usize,
    pub merkle_height_size: usize,
    pub num_wires_cap: usize,
    pub num_plonk_zs_partial_products_cap: usize,
    pub num_quotient_polys_cap: usize,
    pub num_openings_constants: usize,
    pub num_openings_plonk_sigmas: usize,
    pub num_openings_wires: usize,
    pub num_openings_plonk_zs: usize,
    pub num_openings_plonk_zs_next: usize,
    pub num_openings_partial_products: usize,
    pub num_openings_quotient_polys: usize,
    pub num_fri_commit_round: usize,
    pub fri_commit_merkle_cap_height: usize,
    pub num_fri_query_round: usize,
    pub num_fri_query_init_constants_sigmas_v: usize,
    pub num_fri_query_init_constants_sigmas_p: usize,
    pub num_fri_query_init_wires_v: usize,
    pub num_fri_query_init_wires_p: usize,
    pub num_fri_query_init_zs_partial_v: usize,
    pub num_fri_query_init_zs_partial_p: usize,
    pub num_fri_query_init_quotient_v: usize,
    pub num_fri_query_init_quotient_p: usize,
    pub num_fri_query_step0_v: usize,
    pub num_fri_query_step0_p: usize,
    pub num_fri_query_step1_v: usize,
    pub num_fri_query_step1_p: usize,
    pub num_fri_final_poly_ext_v: usize,
}

impl ProofShape {
    /// Every one of the first `n` query rounds holds exactly two folding
    /// steps.
    pub open spec fn two_steps_before(&self, n: int) -> bool {
        forall|j: int| 0 <= j < n ==> (#[trigger] self.query_rounds@[j]).steps@.len() == 2
    }

    /// `fault` is the first thing that keeps this shape from being read.
    pub open spec fn has_fault(&self, fault: ShapeFault) -> bool {
        let rounds = self.query_rounds@;
        match fault {
            ShapeFault::NoQueryRound => rounds.len() == 0,
            ShapeFault::FoldingSteps { round, found } => {
                &&& round < rounds.len()
                &&& found == rounds[round as int].steps@.len()
                &&& found != 2
                &&& self.two_steps_before(round as int)
            },
            ShapeFault::InitialTrees { found } => {
                &&& rounds.len() > 0
                &&& self.two_steps_before(rounds.len() as int)
                &&& found == rounds[0].initial_trees@.len()
                &&& found < 4
            },
            ShapeFault::NoCommitRound => {
                &&& rounds.len() > 0
                &&& self.two_steps_before(rounds.len() as int)
                &&& rounds[0].initial_trees@.len() >= 4
                &&& self.commit_phase_merkle_caps@.len() == 0
            },
        }
    }

    /// The shape can be read: it holds a query round, every query round
    /// holds exactly two folding steps, the first one opens at least four
    /// initial trees, and the commit phase holds a cap.
    pub open spec fn supported(&self) -> bool {
        &&& self.query_rounds@.len() > 0
        &&& self.two_steps_before(self.query_rounds@.len() as int)
        &&& self.query_rounds@[0].initial_trees@.len() >= 4
        &&& self.commit_phase_merkle_caps@.len() > 0
    }

    /// The counts that a supported shape is read into.
    pub open spec fn counts(&self) -> VerifierConfig
        recommends
            self.supported(),
    {
        let first = self.query_rounds@[0];
        VerifierConfig {
            hash_size: HASH_SIZE,
            field_size: FIELD_SIZE,
            ext_field_size: EXT_FIELD_SIZE,
            merkle_height_size: MERKLE_HEIGHT_SIZE,
            num_wires_cap: self.wires_cap,
            num_plonk_zs_partial_products_cap: self.plonk_zs_partial_products_cap,
            num_quotient_polys_cap: self.quotient_polys_cap,
            num_openings_constants: self.openings_constants,
            num_openings_plonk_sigmas: self.openings_plonk_sigmas,
            num_openings_wires: self.openings_wires,
            num_openings_plonk_zs: self.openings_plonk_zs,
            num_openings_plonk_zs_next: self.openings_plonk_zs_next,
            num_openings_partial_products: self.openings_partial_products,
            num_openings_quotient_polys: self.openings_quotient_polys,
            num_fri_commit_round: self.commit_phase_merkle_caps@.len() as usize,
            fri_commit_merkle_cap_height: self.commit_phase_merkle_caps@[0],
            num_fri_query_round: self.query_rounds@.len() as usize,
            num_fri_query_init_constants_sigmas_v: first.initial_trees@[0].values,
            num_fri_query_init_constants_sigmas_p: first.initial_trees@[0].siblings,
            num_fri_query_init_wires_v: first.initial_trees@[1].values,
            num_fri_query_init_wires_p: first.initial_trees@[1].siblings,
            num_fri_query_init_zs_partial_v: first.initial_trees@[2].values,
            num_fri_query_init_zs_partial_p: first.initial_trees@[2].siblings,
            num_fri_query_init_quotient_v: first.initial_trees@[3].values,
            num_fri_query_init_quotient_p: first.initial_trees@[3].siblings,
            num_fri_query_step0_v: first.steps@[0].values,
            num_fri_query_step0_p: first.steps@[0].siblings,
            num_fri_query_step1_v: first.steps@[1].values,
            num_fri_query_step1_p: first.steps@[1].siblings,
            num_fri_final_poly_ext_v: self.final_poly_coeffs,
        }
    }
}

impl VerifierConfig {
    /// Bytes of the three commitment caps.
    pub open spec fn caps_bytes(&self) -> int {
        (self.num_wires_cap + self.num_plonk_zs_partial_products_cap
            + self.num_quotient_polys_cap) * self.hash_size
    }

    /// Bytes of the seven groups of opened values.
    pub open spec fn openings_bytes(&self) -> int {
        (self.num_openings_constants + self.num_openings_plonk_sigmas + self.num_openings_wires
            + self.num_openings_plonk_zs + self.num_openings_plonk_zs_next
            + self.num_openings_partial_products + self.num_openings_quotient_polys)
            * self.ext_field_size
    }

    /// Bytes of the commit-phase caps.
    pub open spec fn commit_phase_bytes(&self) -> int {
        (self.num_fri_commit_round * self.fri_commit_merkle_cap_height) * self.hash_size
    }

    /// Bytes that one query round spends on its four initial trees: the
    /// opened values, the siblings, and one path length for each tree.
    pub open spec fn initial_trees_bytes_per_round(&self) -> int {
        (self.num_fri_query_init_constants_sigmas_v + self.num_fri_query_init_wires_v
            + self.num_fri_query_init_zs_partial_v + self.num_fri_query_init_quotient_v)
            * self.field_size + (self.num_fri_query_init_constants_sigmas_p
            + self.num_fri_query_init_wires_p + self.num_fri_query_init_zs_partial_p
            + self.num_fri_query_init_quotient_p) * self.hash_size + self.merkle_height_size * 4
    }

    /// Bytes that one query round spends on its two folding steps: the
    /// opened values, the siblings, and one path length for each step.
    pub open spec fn steps_bytes_per_round(&self) -> int {
        self.num_fri_query_step0_v * self.ext_field_size + self.num_fri_query_step0_p
            * self.hash_size + self.merkle_height_size + self.num_fri_query_step1_v
            * self.ext_field_size + self.num_fri_query_step1_p * self.hash_size
            + self.merkle_height_size
    }

    /// Bytes of the final polynomial.
    pub open spec fn final_poly_bytes(&self) -> int {
        self.num_fri_final_poly_ext_v * self.ext_field_size
    }

    /// The bytes of the `k`-th part of a serialised proof: the commitment
    /// caps, the openings, the commit-phase caps, the initial trees of all
    /// query rounds, their folding steps, the final polynomial, and the
    /// proof-of-work nonce that closes the proof.
    pub open spec fn part_bytes(&self, k: int) -> int {
        if k == 0 {
            self.caps_bytes()
        } else if k == 1 {
            self.openings_bytes()
        } else if k == 2 {
            self.commit_phase_bytes()
        } else if k == 3 {
            self.num_fri_query_round * self.initial_trees_bytes_per_round()
        } else if k == 4 {
            self.num_fri_query_round * self.steps_bytes_per_round()
        } else if k == 5 {
            self.final_poly_bytes()
        } else if k == 6 {
            self.field_size as int
        } else {
            0
        }
    }

    /// The bytes of the `k`-th part where `k` is at most `upto`, else none.
    pub open spec fn part_upto(&self, k: int, upto: int) -> int {
        if k <= upto {
            self.part_bytes(k)
        } else {
            0
        }
    }

    /// The bytes of a serialised proof up to and including its `k`-th part.
    pub open spec fn checkpoint(&self, k: int) -> int {
        self.part_upto(0, k) + self.part_upto(1, k) + self.part_upto(2, k) + self.part_upto(3, k)
            + self.part_upto(4, k) + self.part_upto(5, k) + self.part_upto(6, k)
    }

    /// The length that the counts predict for the serialised proof.
    pub open spec fn predicted_len(&self) -> int {
        self.checkpoint(6)
    }

    /// No part of a proof has a negative length.
    pub proof fn lemma_part_bytes_nonnegative(&self, k: int)
        ensures
            0 <= self.part_bytes(k),
    {
        assert(0 <= self.caps_bytes()) by (nonlinear_arith)
            requires
                self.caps_bytes() == (self.num_wires_cap + self.num_plonk_zs_partial_products_cap
                    + self.num_quotient_polys_cap) * self.hash_size,
        ;
        assert(0 <= self.openings_bytes()) by (nonlinear_arith)
            requires
                self.openings_bytes() == (self.num_openings_constants
                    + self.num_openings_plonk_sigmas + self.num_openings_wires
                    + self.num_openings_plonk_zs + self.num_openings_plonk_zs_next
                    + self.num_openings_partial_products + self.num_openings_quotient_polys)
                    * self.ext_field_size,
        ;
        assert(0 <= self.commit_phase_bytes()) by (nonlinear_arith)
            requires
                self.commit_phase_bytes() == (self.num_fri_commit_round
                    * self.fri_commit_merkle_cap_height) * self.hash_size,
        ;
        assert(0 <= self.initial_trees_bytes_per_round()) by (nonlinear_arith)
            requires
                self.initial_trees_bytes_per_round() == (
                self.num_fri_query_init_constants_sigmas_v + self.num_fri_query_init_wires_v
                    + self.num_fri_query_init_zs_partial_v + self.num_fri_query_init_quotient_v)
                    * self.field_size + (self.num_fri_query_init_constants_sigmas_p
                    + self.num_fri_query_init_wires_p + self.num_fri_query_init_zs_partial_p
                    + self.num_fri_query_init_quotient_p) * self.hash_size
                    + self.merkle_height_size * 4,
        ;
        assert(0 <= self.steps_bytes_per_round()) by (nonlinear_arith)
            requires
                self.steps_bytes_per_round() == self.num_fri_query_step0_v * self.ext_field_size
                    + self.num_fri_query_step0_p * self.hash_size + self.merkle_height_size
                    + self.num_fri_query_step1_v * self.ext_field_size
                    + self.num_fri_query_step1_p * self.hash_size + self.merkle_height_size,
        ;
        assert(0 <= self.final_poly_bytes()) by (nonlinear_arith)
            requires
                self.final_poly_bytes() == self.num_fri_final_poly_ext_v * self.ext_field_size,
        ;
        let rounds = self.num_fri_query_round;
        let initial = self.initial_trees_bytes_per_round();
        let steps = self.steps_bytes_per_round();
        assert(0 <= rounds * initial && 0 <= rounds * steps) by (nonlinear_arith)
            requires
                0 <= rounds,
                0 <= initial,
                0 <= steps,
        ;
    }

    /// The checkpoints never fall, and none is negative.
    pub proof fn lemma_checkpoints_rise(&self, k: int)
        ensures
            self.checkpoint(k - 1) <= self.checkpoint(k),
            0 <= self.checkpoint(k),
    {
        self.lemma_part_bytes_nonnegative(0);
        self.lemma_part_bytes_nonnegative(1);
        self.lemma_part_bytes_nonnegative(2);
        self.lemma_part_bytes_nonnegative(3);
        self.lemma_part_bytes_nonnegative(4);
        self.lemma_part_bytes_nonnegative(5);
        self.lemma_part_bytes_nonnegative(6);
    }
}

/// `value` as a `usize`, where it is one.
pub open spec fn fit(value: int) -> Option<usize> {
    if 0 <= value <= usize::MAX {
        Some(value as usize)
    } else {
        None
    }
}

impl VerifierConfig {
    /// The bytes of each of the seven parts of a serialised proof, in
    /// order.
    fn parts(&self) -> (parts: [CheckedUsize; 7])
        ensures
            forall|k: int| 0 <= k < 7 ==> (#[trigger] parts[k])@ == self.part_bytes(k),
    {
        let caps = CheckedUsize::new(self.num_wires_cap).add_value(
            self.num_plonk_zs_partial_products_cap,
        ).add_value(self.num_quotient_polys_cap).mul_value(self.hash_size);
        let openings = CheckedUsize::new(self.num_openings_constants).add_value(
            self.num_openings_plonk_sigmas,
        ).add_value(self.num_openings_wires).add_value(self.num_openings_plonk_zs).add_value(
            self.num_openings_plonk_zs_next,
        ).add_value(self.num_openings_partial_products).add_value(
            self.num_openings_quotient_polys,
        ).mul_value(self.ext_field_size);
        let commit = CheckedUsize::new(self.num_fri_commit_round).mul_value(
            self.fri_commit_merkle_cap_height,
        ).mul_value(self.hash_size);
        let initial_values = CheckedUsize::new(
            self.num_fri_query_init_constants_sigmas_v,
        ).add_value(self.num_fri_query_init_wires_v).add_value(
            self.num_fri_query_init_zs_partial_v,
        ).add_value(self.num_fri_query_init_quotient_v).mul_value(self.field_size);
        let initial_siblings = CheckedUsize::new(
            self.num_fri_query_init_constants_sigmas_p,
        ).add_value(self.num_fri_query_init_wires_p).add_value(
            self.num_fri_query_init_zs_partial_p,
        ).add_value(self.num_fri_query_init_quotient_p).mul_value(self.hash_size);
        let path_lens = CheckedUsize::new(self.merkle_height_size).mul_value(4);
        let rounds = CheckedUsize::new(self.num_fri_query_round);
        let initial = rounds.mul_checked(
            &initial_values.add_checked(&initial_siblings).add_checked(&path_lens),
        );
        let step0_values = CheckedUsize::new(self.num_fri_query_step0_v).mul_value(
            self.ext_field_size,
        );
        let step0_siblings = CheckedUsize::new(self.num_fri_query_step0_p).mul_value(
            self.hash_size,
        );
        let step1_values = CheckedUsize::new(self.num_fri_query_step1_v).mul_value(
            self.ext_field_size,
        );
        let step1_siblings = CheckedUsize::new(self.num_fri_query_step1_p).mul_value(
            self.hash_size,
        );
        let steps = rounds.mul_checked(
            &step0_values.add_checked(&step0_siblings).add_value(
                self.merkle_height_size,
            ).add_checked(&step1_values).add_checked(&step1_siblings).add_value(
                self.merkle_height_size,
            ),
        );
        let final_poly = CheckedUsize::new(self.num_fri_final_poly_ext_v).mul_value(
            self.ext_field_size,
        );
        let footer = CheckedUsize::new(self.field_size);
        [caps, openings, commit, initial, steps, final_poly, footer]
    }

    /// The bytes of a serialised proof after each of its seven parts, in
    /// order; `None` where a count exceeds `usize::MAX`.
    pub fn checkpoints(&self) -> (sums: [Option<usize>; 7])
        ensures
            forall|k: int| 0 <= k < 7 ==> #[trigger] sums[k] == fit(self.checkpoint(k)),
    {
        let parts = self.parts();
        let mut sums: [Option<usize>; 7] = [None;7];
        let mut total = CheckedUsize::new(0);
        let mut k: usize = 0;
        while k < 7
            invariant
                k <= 7,
                total@ == self.checkpoint(k - 1),
                forall|j: int| 0 <= j < 7 ==> (#[trigger] parts[j])@ == self.part_bytes(j),
                forall|j: int| 0 <= j < k ==> #[trigger] sums[j] == fit(self.checkpoint(j)),
            decreases 7 - k,
        {
            total = total.add_checked(&parts[k]);
            sums[k] = total.to_option();
            k = k + 1;
        }
        sums
    }

    /// The length that the counts predict for the serialised proof; `None`
    /// where it exceeds `usize::MAX`.
    pub fn predicted_size(&self) -> (size: Option<usize>)
        ensures
            size == fit(self.predicted_len()),
    {
        let sums = self.checkpoints();
        sums[6]
    }

    /// Holds the length of a serialisation against the prediction.
    ///
    /// Fails with `IntegrityMismatch` exactly when the two differ.
    pub fn check_proof_len(&self, actual: usize) -> (result: Result<(), Error>)
        ensures
            result is Ok <==> actual == self.predicted_len(),
            result is Err ==> result == Err::<(), Error>(
                Error::IntegrityMismatch { predicted: fit(self.predicted_len()), actual },
            ),
    {
        let predicted = self.predicted_size();
        match predicted {
            Some(size) if size == actual => Ok(()),
            _ => Err(Error::IntegrityMismatch { predicted, actual }),
        }
    }
}

/// A fault rules support out, and a shape never has two faults.
pub proof fn lemma_fault_is_unique(shape: ProofShape, f1: ShapeFault, f2: ShapeFault)
    requires
        shape.has_fault(f1),
    ensures
        !shape.supported(),
        shape.has_fault(f2) ==> f1 == f2,
{
}

/// Reads the structural counts off a proof's shape.
///
/// Fails with `UnsupportedShape` unless the shape is supported; the fault
/// reported is the first one in the order in which `ShapeFault` lists them.
pub fn generate_verifier_config(shape: &ProofShape) -> (result: Result<VerifierConfig, Error>)
    ensures
        result is Ok <==> shape.supported(),
        match result {
            Ok(conf) => conf == shape.counts(),
            Err(Error::UnsupportedShape(fault)) => shape.has_fault(fault),
            Err(_) => false,
        },
{
    let num_rounds = shape.query_rounds.len();
    if num_rounds == 0 {
        return Err(Error::UnsupportedShape(ShapeFault::NoQueryRound));
    }
    let mut round: usize = 0;
    while round < num_rounds
        invariant
            round <= num_rounds,
            num_rounds == shape.query_rounds@.len(),
            shape.two_steps_before(round as int),
        decreases num_rounds - round,
    {
        let found = shape.query_rounds[round].steps.len();
        if found != FOLDING_STEPS {
            return Err(Error::UnsupportedShape(ShapeFault::FoldingSteps { round, found }));
        }
        round = round + 1;
    }
    let first = &shape.query_rounds[0];
    let trees = first.initial_trees.len();
    if trees < INITIAL_TREES {
        return Err(Error::UnsupportedShape(ShapeFault::InitialTrees { found: trees }));
    }
    if shape.commit_phase_merkle_caps.len() == 0 {
        return Err(Error::UnsupportedShape(ShapeFault::NoCommitRound));
    }
    Ok(
        VerifierConfig {
            hash_size: HASH_SIZE,
            field_size: FIELD_SIZE,
            ext_field_size: EXT_FIELD_SIZE,
            merkle_height_size: MERKLE_HEIGHT_SIZE,
            num_wires_cap: shape.wires_cap,
            num_plonk_zs_partial_products_cap: shape.plonk_zs_partial_products_cap,
            num_quotient_polys_cap: shape.quotient_polys_cap,
            num_openings_constants: shape.openings_constants,
            num_openings_plonk_sigmas: shape.openings_plonk_sigmas,
            num_openings_wires: shape.openings_wires,
            num_openings_plonk_zs: shape.openings_plonk_zs,
            num_openings_plonk_zs_next: shape.openings_plonk_zs_next,
            num_openings_partial_products: shape.openings_partial_products,
            num_openings_quotient_polys: shape.openings_quotient_polys,
            num_fri_commit_round: shape.commit_phase_merkle_caps.len(),
            fri_commit_merkle_cap_height: shape.commit_phase_merkle_caps[0],
            num_fri_query_round: num_rounds,
            num_fri_query_init_constants_sigmas_v: first.initial_trees[0].values,
            num_fri_query_init_constants_sigmas_p: first.initial_trees[0].siblings,
            num_fri_query_init_wires_v: first.initial_trees[1].values,
            num_fri_query_init_wires_p: first.initial_trees[1].siblings,
            num_fri_query_init_zs_partial_v: first.initial_trees[2].values,
            num_fri_query_init_zs_partial_p: first.initial_trees[2].siblings,
            num_fri_query_init_quotient_v: first.initial_trees[3].values,
            num_fri_query_init_quotient_p: first.initial_trees[3].siblings,
            num_fri_query_step0_v: first.steps[0].values,
            num_fri_query_step0_p: first.steps[0].siblings,
            num_fri_query_step1_v: first.steps[1].values,
            num_fri_query_step1_p: first.steps[1].siblings,
            num_fri_final_poly_ext_v: shape.final_poly_coeffs,
        },
    )
}

/// The standard base64 text, padded, of a byte string.
pub uninterp spec fn base64_text(bytes: Seq<u8>) -> Seq<char>;

/// The length of the base64 text of `len` bytes fits in a `usize`.
pub open spec fn encodable(len: nat) -> bool {
    len / 3 * 4 + 4 <= usize::MAX
}

/// `base64::encode`: the text returned is the standard padded base64
/// encoding of `bytes`, a function of the bytes alone. The call panics
/// where the length of the text overflows, so such input is left out.
#[verifier::external_body]
fn base64_encode(bytes: &[u8]) -> (text: String)
    requires
        encodable(bytes@.len()),
    ensures
        text@ == base64_text(bytes@),
{
    base64::encode(bytes)
}

/// Checks that a serialised proof has the length that `conf` predicts, and
/// returns the proof as base64 text.
///
/// Fails with `IntegrityMismatch` exactly when the lengths differ; the
/// bytes are never altered to make them fit. The proof must be short
/// enough for the length of its base64 text to fit in a `usize`, as every
/// byte string that fits in memory is.
pub fn generate_proof_base64(proof_bytes: &[u8], conf: &VerifierConfig) -> (result: Result<
    String,
    Error,
>)
    requires
        encodable(proof_bytes@.len()),
    ensures
        result is Ok <==> proof_bytes@.len() == conf.predicted_len(),
        match result {
            Ok(text) => text@ == base64_text(proof_bytes@),
            Err(fault) => fault == (Error::IntegrityMismatch {
                predicted: fit(conf.predicted_len()),
                actual: proof_bytes@.len() as usize,
            }),
        },
{
    match conf.check_proof_len(proof_bytes.len()) {
        Ok(()) => Ok(base64_encode(proof_bytes)),
        Err(fault) => Err(fault),
    }
}

} // verus!
