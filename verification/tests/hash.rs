use hash_bridge::{
    le_word_of, sha256, to_bytes, word_to_field, AlgebraicKeccakHash, AlgebraicSha256Hash,
    BytesDigest, Digest, Error, HashFamily, Sha256Hash, Unsupported, ORDER,
};

fn reference_input() -> [u64; 5] {
    [
        8917524657281059100u64,
        13029010200779371910u64,
        16138660518493481604u64,
        17277322750214136960u64,
        1441151880423231822u64,
    ]
}

fn array_to_bits(bytes: &[u8]) -> Vec<bool> {
    let mut bits = Vec::new();
    for byte in bytes {
        for k in 0..8 {
            bits.push((byte >> (7 - k)) & 1 == 1);
        }
    }
    bits
}

fn sha2_digest(message: &[u8]) -> [u8; 32] {
    let mut hasher = <sha2::Sha256 as sha2::Digest>::new();
    sha2::Digest::update(&mut hasher, message);
    sha2::Digest::finalize(hasher).into()
}

struct Lcg(u64);

impl Lcg {
    fn next(&mut self) -> u64 {
        self.0 = self.0.wrapping_mul(6364136223846793005).wrapping_add(1442695040888963407);
        let high = self.0 >> 32;
        self.0 = self.0.wrapping_mul(6364136223846793005).wrapping_add(1442695040888963407);
        (high << 32) | (self.0 >> 32)
    }
}

#[test]
fn test_algebraic_keccak() {
    let mut v = Vec::new();
    v.push(8917524657281059100u64);
    v.push(13029010200779371910u64);
    v.push(16138660518493481604u64);
    v.push(17277322750214136960u64);
    v.push(1441151880423231822u64);
    let h = AlgebraicKeccakHash::hash_no_pad(&v);
    assert_eq!(h.elements[0], 5457815305841349545u64);
    assert_eq!(h.elements[1], 8842690375664641093u64);
    assert_eq!(h.elements[2], 1933753955848180559u64);
    assert_eq!(h.elements[3], 13467638159094989556u64);
}

#[test]
fn test_sha256_hash() {
    let f = reference_input();
    let h = AlgebraicSha256Hash::hash_no_pad(&f);

    let msg = to_bytes(&f);
    assert_eq!(msg.len() * 8, 320);

    let digest_bits = array_to_bits(&sha2_digest(&msg));
    let expected_res = array_to_bits(&h.to_bytes());
    assert_eq!(expected_res.len(), 256);
    for i in 0..expected_res.len() {
        assert_eq!(digest_bits[i], expected_res[i]);
    }
}

#[test]
fn sha256_of_known_messages() {
    assert_eq!(
        sha256(b"abc"),
        [
            0xba, 0x78, 0x16, 0xbf, 0x8f, 0x01, 0xcf, 0xea, 0x41, 0x41, 0x40, 0xde, 0x5d, 0xae,
            0x22, 0x23, 0xb0, 0x03, 0x61, 0xa3, 0x96, 0x17, 0x7a, 0x9c, 0xb4, 0x10, 0xff, 0x61,
            0xf2, 0x00, 0x15, 0xad
        ]
    );
    assert_eq!(
        sha256(b""),
        [
            0xe3, 0xb0, 0xc4, 0x42, 0x98, 0xfc, 0x1c, 0x14, 0x9a, 0xfb, 0xf4, 0xc8, 0x99, 0x6f,
            0xb9, 0x24, 0x27, 0xae, 0x41, 0xe4, 0x64, 0x9b, 0x93, 0x4c, 0xa4, 0x95, 0x99, 0x1b,
            0x78, 0x52, 0xb8, 0x55
        ]
    );
}

#[test]
fn word_to_field_subtracts_the_modulus_once() {
    assert_eq!(ORDER, 18446744069414584321);
    assert_eq!(word_to_field(0), 0);
    assert_eq!(word_to_field(ORDER - 1), ORDER - 1);
    assert_eq!(word_to_field(ORDER), 0);
    assert_eq!(word_to_field(ORDER + 5), 5);
    assert_eq!(word_to_field(u64::MAX), 4294967294);
}

#[test]
fn to_bytes_is_little_endian_and_canonical() {
    assert_eq!(to_bytes(&[]), Vec::<u8>::new());
    assert_eq!(to_bytes(&[1]), vec![1, 0, 0, 0, 0, 0, 0, 0]);
    assert_eq!(
        to_bytes(&[0x0102030405060708, 0xff]),
        vec![8, 7, 6, 5, 4, 3, 2, 1, 0xff, 0, 0, 0, 0, 0, 0, 0]
    );
    assert_eq!(to_bytes(&[ORDER + 1]), vec![1, 0, 0, 0, 0, 0, 0, 0]);
    assert_eq!(to_bytes(&[ORDER - 1]), vec![0, 0, 0, 0, 0xff, 0xff, 0xff, 0xff]);
    for word in reference_input() {
        assert_eq!(to_bytes(&[word]), word.to_le_bytes().to_vec());
    }
}

#[test]
fn le_word_of_reads_eight_bytes() {
    let bytes = [0xaa, 8, 7, 6, 5, 4, 3, 2, 1, 0xbb];
    assert_eq!(le_word_of(&bytes, 1), 0x0102030405060708);
    assert_eq!(le_word_of(&bytes, 0), 0x02030405060708aa);
    assert_eq!(le_word_of(&bytes, 2), 0xbb01020304050607);
    assert_eq!(le_word_of(&[0xff; 8], 0), u64::MAX);
}

#[test]
fn digest_from_bytes_brings_words_into_the_field() {
    let mut bytes = [0u8; 32];
    bytes[..8].copy_from_slice(&u64::MAX.to_le_bytes());
    bytes[8..16].copy_from_slice(&ORDER.to_le_bytes());
    bytes[16..24].copy_from_slice(&(ORDER - 1).to_le_bytes());
    bytes[24..].copy_from_slice(&7u64.to_le_bytes());
    let digest = Digest::from_bytes(&bytes);
    assert_eq!(digest.elements, [4294967294, 0, ORDER - 1, 7]);
    assert_eq!(Digest::from_bytes(&digest.to_bytes()), digest);
}

#[test]
fn digest_round_trips_through_bytes() {
    let digest = Digest { elements: [1, 2, ORDER - 1, 0x0102030405060708] };
    let bytes = digest.to_bytes();
    assert_eq!(bytes.len(), 32);
    assert_eq!(&bytes[24..], &[8, 7, 6, 5, 4, 3, 2, 1]);
    assert_eq!(Digest::from_bytes(&bytes), digest);
    assert_eq!(Digest::zero().elements, [0, 0, 0, 0]);
    assert_eq!(Digest::zero().to_bytes(), vec![0u8; 32]);
}

#[test]
fn bytes_digest_keeps_the_first_bytes() {
    let bytes: Vec<u8> = (0u8..32).collect();
    let digest = BytesDigest::<25>::from_bytes(&bytes);
    assert_eq!(digest.bytes.to_vec(), bytes[..25].to_vec());
    assert_eq!(digest.to_bytes(), bytes[..25].to_vec());
    let none = BytesDigest::<0>::from_bytes(&bytes);
    assert_eq!(none.to_bytes(), Vec::<u8>::new());
}

#[test]
fn hash_of_nothing_is_the_zero_digest() {
    assert_eq!(AlgebraicSha256Hash::hash_no_pad(&[]).elements, [0, 0, 0, 0]);
    assert_eq!(AlgebraicKeccakHash::hash_no_pad(&[]).elements, [0, 0, 0, 0]);
    assert_eq!(AlgebraicSha256Hash::hash_public_inputs(&[]).elements, [0, 0, 0, 0]);
    assert_eq!(AlgebraicKeccakHash::hash_public_inputs(&[]).elements, [0, 0, 0, 0]);
}

#[test]
fn raw_hash_of_nothing_is_the_digest_of_the_empty_string() {
    let digest = Sha256Hash::<32>::hash_no_pad(&[]);
    assert_eq!(digest.bytes, sha256(b""));
    let cut = Sha256Hash::<25>::hash_no_pad(&[]);
    assert_eq!(cut.bytes.to_vec(), sha256(b"")[..25].to_vec());
}

#[test]
fn hash_no_pad_is_deterministic() {
    let input = reference_input();
    let again = reference_input().to_vec();
    assert_eq!(AlgebraicSha256Hash::hash_no_pad(&input), AlgebraicSha256Hash::hash_no_pad(&again));
    assert_eq!(AlgebraicKeccakHash::hash_no_pad(&input), AlgebraicKeccakHash::hash_no_pad(&again));
    assert_eq!(Sha256Hash::<25>::hash_no_pad(&input), Sha256Hash::<25>::hash_no_pad(&again));
}

#[test]
fn algebraic_sha256_reads_the_digest_as_field_elements() {
    let input = reference_input();
    let digest = sha2_digest(&to_bytes(&input));
    let h = AlgebraicSha256Hash::hash_no_pad(&input);
    for i in 0..4 {
        let word = u64::from_le_bytes(digest[8 * i..8 * i + 8].try_into().unwrap());
        let expected = if word >= ORDER { word - ORDER } else { word };
        assert_eq!(h.elements[i], expected);
        assert!(h.elements[i] < ORDER);
    }
    assert_eq!(AlgebraicSha256Hash::hash_public_inputs(&input), h);
}

#[test]
fn sha256_hash_cuts_the_digest() {
    let input = reference_input();
    let digest = sha2_digest(&to_bytes(&input));
    assert_eq!(Sha256Hash::<25>::hash_no_pad(&input).bytes.to_vec(), digest[..25].to_vec());
    assert_eq!(Sha256Hash::<32>::hash_no_pad(&input).bytes, digest);
    assert_eq!(Sha256Hash::<25>::hash_public_inputs(&input).bytes.to_vec(), digest[..25].to_vec());
    assert_eq!(Sha256Hash::<25>::hash_size(), 25);
    assert_eq!(AlgebraicSha256Hash::HASH_SIZE, 32);
    assert_eq!(AlgebraicKeccakHash::HASH_SIZE, 32);
}

#[test]
fn sha256_hash_combines_the_bytes_of_two_nodes() {
    let left = Sha256Hash::<25>::hash_no_pad(&[1, 2, 3]);
    let right = Sha256Hash::<25>::hash_no_pad(&[4]);
    let mut joined = left.bytes.to_vec();
    joined.extend_from_slice(&right.bytes);
    assert_eq!(joined.len(), 50);
    let expected = sha2_digest(&joined);
    assert_eq!(Sha256Hash::<25>::two_to_one(left, right).bytes.to_vec(), expected[..25].to_vec());
}

#[test]
fn two_to_one_is_the_hash_of_the_concatenation() {
    let mut rng = Lcg(0x5eed);
    for _ in 0..50 {
        let left = Digest { elements: [rng.next(), rng.next(), rng.next(), rng.next()] };
        let right = Digest { elements: [rng.next(), rng.next(), rng.next(), rng.next()] };
        let mut joined = left.elements.to_vec();
        joined.extend_from_slice(&right.elements);
        assert_eq!(
            AlgebraicSha256Hash::two_to_one(left, right),
            AlgebraicSha256Hash::hash_no_pad(&joined)
        );
        assert_eq!(
            AlgebraicKeccakHash::two_to_one(left, right),
            AlgebraicKeccakHash::hash_no_pad(&joined)
        );
    }
}

#[test]
fn two_to_one_depends_on_the_order() {
    let left = Digest { elements: [1, 2, 3, 4] };
    let right = Digest { elements: [5, 6, 7, 8] };
    assert_ne!(
        AlgebraicSha256Hash::two_to_one(left, right),
        AlgebraicSha256Hash::two_to_one(right, left)
    );
    assert_ne!(
        AlgebraicSha256Hash::two_to_one(left, right),
        AlgebraicKeccakHash::two_to_one(left, right)
    );
}

#[test]
fn keccak_hashes_the_public_inputs_with_sha256() {
    let input = reference_input();
    assert_eq!(
        AlgebraicKeccakHash::hash_public_inputs(&input),
        AlgebraicSha256Hash::hash_no_pad(&input)
    );
    assert_ne!(
        AlgebraicKeccakHash::hash_public_inputs(&input),
        AlgebraicKeccakHash::hash_no_pad(&input)
    );
}

#[test]
fn inputs_above_the_modulus_hash_as_their_canonical_values() {
    assert_eq!(
        AlgebraicSha256Hash::hash_no_pad(&[ORDER + 3, 9]),
        AlgebraicSha256Hash::hash_no_pad(&[3, 9])
    );
}

#[test]
fn circuit_permutation_is_unsupported() {
    assert_eq!(
        AlgebraicSha256Hash::permute_swapped(),
        Err(Error::UnsupportedOperation(Unsupported::CircuitPermutation(HashFamily::Sha256)))
    );
    assert_eq!(
        AlgebraicKeccakHash::permute_swapped(),
        Err(Error::UnsupportedOperation(Unsupported::CircuitPermutation(HashFamily::Keccak256)))
    );
}
