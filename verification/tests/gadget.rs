use hash_bridge::{
    digest_bit_of, hash_circuit, message_wire_of, public_inputs_wiring, AlgebraicKeccakHash,
    AlgebraicSha256Hash, BitWire, Error, HashFamily, PublicInputsGadget, Unsupported, ORDER,
};

fn sha2_digest(message: &[u8]) -> [u8; 32] {
    let mut hasher = <sha2::Sha256 as sha2::Digest>::new();
    sha2::Digest::update(&mut hasher, message);
    sha2::Digest::finalize(hasher).into()
}

fn canonical(word: u64) -> u64 {
    if word >= ORDER {
        word - ORDER
    } else {
        word
    }
}

/// What the wired circuit computes, with SHA-256 in software where the
/// circuit has its hash circuit.
fn evaluate(gadget: &PublicInputsGadget, inputs: &[u64]) -> [u64; 4] {
    let wiring = match gadget {
        PublicInputsGadget::Zero => return [0; 4],
        PublicInputsGadget::Hash(wiring) => wiring,
    };
    assert_eq!(wiring.message_bits, wiring.message.len());
    let message_bits: Vec<bool> = wiring
        .message
        .iter()
        .map(|wire| (canonical(inputs[wire.input]) >> wire.bit) & 1 == 1)
        .collect();
    let message: Vec<u8> = message_bits
        .chunks(8)
        .map(|byte| byte.iter().fold(0u8, |acc, bit| (acc << 1) | (*bit as u8)))
        .collect();
    let digest = sha2_digest(&message);
    let digest_bits: Vec<bool> =
        (0..256).map(|q| (digest[q / 8] >> (7 - q % 8)) & 1 == 1).collect();
    let mut out = [0u64; 4];
    for e in 0..4 {
        let mut sum: u128 = 0;
        for (n, position) in wiring.digest[e].iter().enumerate() {
            if digest_bits[*position] {
                sum += 1u128 << n;
            }
        }
        out[e] = (sum % (ORDER as u128)) as u64;
    }
    out
}

struct Lcg(u64);

impl Lcg {
    fn next(&mut self) -> u64 {
        self.0 = self.0.wrapping_mul(6364136223846793005).wrapping_add(1442695040888963407);
        let high = self.0 >> 32;
        self.0 = self.0.wrapping_mul(6364136223846793005).wrapping_add(1442695040888963407);
        canonical((high << 32) | (self.0 >> 32))
    }
}

#[test]
fn test_public_inputs_hash_sha256() {
    let f = [
        8917524657281059100u64,
        13029010200779371910u64,
        16138660518493481604u64,
        17277322750214136960u64,
        1441151880423231822u64,
    ];
    let h = AlgebraicSha256Hash::hash_no_pad(&f);

    let gadget = AlgebraicSha256Hash::public_inputs_hash(f.len());
    let out = evaluate(&gadget, &f);

    assert_eq!(out[0], h.elements[0]);
    assert_eq!(out[1], h.elements[1]);
    assert_eq!(out[2], h.elements[2]);
    assert_eq!(out[3], h.elements[3]);
}

#[test]
fn gadget_agrees_with_the_hash_for_sampled_inputs() {
    let mut rng = Lcg(2024);
    for len in [0usize, 1, 5, 64] {
        let gadget = AlgebraicSha256Hash::public_inputs_hash(len);
        for _ in 0..20 {
            let inputs: Vec<u64> = (0..len).map(|_| rng.next()).collect();
            let expected = AlgebraicSha256Hash::hash_no_pad(&inputs);
            assert_eq!(evaluate(&gadget, &inputs), expected.elements);
        }
    }
}

#[test]
fn gadget_for_no_input_is_constant_zero() {
    assert_eq!(public_inputs_wiring(0), PublicInputsGadget::Zero);
    assert_eq!(AlgebraicSha256Hash::public_inputs_hash(0), PublicInputsGadget::Zero);
    assert_eq!(evaluate(&PublicInputsGadget::Zero, &[]), [0, 0, 0, 0]);
}

#[test]
fn gadget_is_sized_for_its_inputs() {
    for len in [1usize, 2, 5, 64] {
        match public_inputs_wiring(len) {
            PublicInputsGadget::Zero => panic!("a hash circuit is needed for {} inputs", len),
            PublicInputsGadget::Hash(wiring) => {
                assert_eq!(wiring.message_bits, 64 * len);
                assert_eq!(wiring.message.len(), 64 * len);
                assert_eq!(wiring.digest.len(), 4);
                for element in &wiring.digest {
                    assert_eq!(element.len(), 64);
                }
            }
        }
    }
}

#[test]
fn message_bits_are_wired_byte_by_byte_from_the_high_bit() {
    let wiring = match public_inputs_wiring(2) {
        PublicInputsGadget::Hash(wiring) => wiring,
        PublicInputsGadget::Zero => panic!("a hash circuit is needed"),
    };
    assert_eq!(wiring.message[0], BitWire { input: 0, bit: 7 });
    assert_eq!(wiring.message[1], BitWire { input: 0, bit: 6 });
    assert_eq!(wiring.message[7], BitWire { input: 0, bit: 0 });
    assert_eq!(wiring.message[8], BitWire { input: 0, bit: 15 });
    assert_eq!(wiring.message[63], BitWire { input: 0, bit: 56 });
    assert_eq!(wiring.message[64], BitWire { input: 1, bit: 7 });
    assert_eq!(wiring.message[127], BitWire { input: 1, bit: 56 });
    for i in 0..2 {
        for j in 0..8 {
            for k in 0..8 {
                assert_eq!(
                    wiring.message[i * 64 + j * 8 + k],
                    BitWire { input: i, bit: j * 8 + 7 - k }
                );
            }
        }
    }
    assert_eq!(message_wire_of(0), BitWire { input: 0, bit: 7 });
    assert_eq!(message_wire_of(77), BitWire { input: 1, bit: 10 });
    assert_eq!(message_wire_of(usize::MAX), BitWire { input: usize::MAX / 64, bit: 56 });
}

#[test]
fn digest_bits_are_summed_byte_by_byte_from_the_low_bit() {
    let wiring = match public_inputs_wiring(1) {
        PublicInputsGadget::Hash(wiring) => wiring,
        PublicInputsGadget::Zero => panic!("a hash circuit is needed"),
    };
    assert_eq!(wiring.digest[0][0], 7);
    assert_eq!(wiring.digest[0][7], 0);
    assert_eq!(wiring.digest[0][8], 15);
    assert_eq!(wiring.digest[1][0], 71);
    assert_eq!(wiring.digest[3][63], 248);
    for i in 0..4 {
        for j in 0..8 {
            for k in 0..8 {
                assert_eq!(wiring.digest[i][j * 8 + k], i * 64 + j * 8 + 7 - k);
            }
        }
    }
    assert_eq!(digest_bit_of(0, 0), 7);
    assert_eq!(digest_bit_of(2, 9), 142);
    assert_eq!(digest_bit_of(3, 63), 248);
    let mut seen = [false; 256];
    for element in &wiring.digest {
        for position in element {
            assert!(!seen[*position]);
            seen[*position] = true;
        }
    }
    assert!(seen.iter().all(|s| *s));
}

#[test]
fn keccak_uses_the_sha256_gadget() {
    for len in [0usize, 1, 3] {
        assert_eq!(
            AlgebraicKeccakHash::public_inputs_hash(len),
            AlgebraicSha256Hash::public_inputs_hash(len)
        );
    }
    let inputs = [5u64, 6, 7];
    let gadget = AlgebraicKeccakHash::public_inputs_hash(3);
    assert_eq!(
        evaluate(&gadget, &inputs),
        AlgebraicKeccakHash::hash_public_inputs(&inputs).elements
    );
}

#[test]
fn only_sha256_has_a_hash_circuit() {
    for len in [0usize, 1, 5] {
        assert_eq!(hash_circuit(HashFamily::Sha256, len), Ok(public_inputs_wiring(len)));
        assert_eq!(
            hash_circuit(HashFamily::Keccak256, len),
            Err(Error::UnsupportedOperation(Unsupported::HashCircuit(HashFamily::Keccak256)))
        );
    }
}
