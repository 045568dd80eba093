//! The padding of a circuit that wraps a proof in another proof.

use vstd::arithmetic::power2::pow2;
use vstd::prelude::*;

verus! {

/// The number of gates that a circuit is padded to, so that it is built
/// with `2^min_degree_bits` rows. The builder adds a few gates of its own
/// and then pads to the next power of two, so one gate more than half the
/// rows is enough.
pub open spec fn min_gates(min_degree_bits: nat) -> nat
    recommends
        min_degree_bits >= 1,
{
    pow2((min_degree_bits - 1) as nat) + 1
}

/// The number of gates that do nothing and must be added to a circuit of
/// `num_gates` gates: none where no degree is asked for, else what is
/// missing to `min_gates`.
pub open spec fn padding(num_gates: nat, min_degree_bits: Option<usize>) -> nat {
    match min_degree_bits {
        None => 0,
        Some(bits) => if num_gates < min_gates(bits as nat) {
            (min_gates(bits as nat) - num_gates) as nat
        } else {
            0
        },
    }
}

/// The number of gates that do nothing and must be added to a circuit of
/// `num_gates` gates, so that it is built with `2^min_degree_bits` rows.
pub fn padding_gates(num_gates: usize, min_degree_bits: Option<usize>) -> (count: usize)
    requires
        min_degree_bits matches Some(bits) ==> 1 <= bits <= usize::BITS,
    ensures
        count == padding(num_gates as nat, min_degree_bits),
{
    match min_degree_bits {
        None => 0,
        Some(bits) => {
            let shift = bits - 1;
            proof {
                vstd::bits::lemma_usize_pow2_no_overflow(shift as nat);
                vstd::bits::lemma_usize_shl_is_mul(1, shift);
            }
            let min_gates = (1usize << shift) + 1;
            if num_gates < min_gates {
                min_gates - num_gates
            } else {
                0
            }
        },
    }
}

} // verus!
