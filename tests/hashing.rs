use bao::length::le_u64;
use bao::{hash, hash_node, hash_root, hash_two, verify, verify_node, Error, CHUNK_SIZE, DIGEST_SIZE};

const TEST_CASES: &[usize] = &[
    0,
    1,
    10,
    CHUNK_SIZE - 1,
    CHUNK_SIZE,
    CHUNK_SIZE + 1,
    2 * CHUNK_SIZE - 1,
    2 * CHUNK_SIZE,
    2 * CHUNK_SIZE + 1,
    3 * CHUNK_SIZE - 1,
    3 * CHUNK_SIZE,
    3 * CHUNK_SIZE + 1,
    4 * CHUNK_SIZE - 1,
    4 * CHUNK_SIZE,
    4 * CHUNK_SIZE + 1,
    16 * CHUNK_SIZE - 1,
    16 * CHUNK_SIZE,
    16 * CHUNK_SIZE + 1,
];

fn sample(len: usize) -> Vec<u8> {
    (0..len).map(|i| (i % 251) as u8).collect()
}

#[test]
fn test_hash_works_at_all() {
    let inputs: &[&[u8]] = &[b"", b"f", b"foo"];
    for input in inputs {
        let mut digest = hash(input);
        verify(input, &digest).unwrap();
        digest[0] ^= 1;
        verify(input, &digest).unwrap_err();
    }
}

#[test]
fn test_hash_two() {
    assert_eq!(hash(b"foobar"), hash_two(b"foo", b"bar"));
}

#[test]
fn hash_matches_blake2b_256_vectors() {
    assert_eq!(
        hash(b"").to_vec(),
        hex::decode("0e5751c026e543b2e8ab2eb06099daa1d1e5df47778f7787faab45cdf12fe3a8").unwrap()
    );
    assert_eq!(
        hash(b"abc").to_vec(),
        hex::decode("bddd813c634239723171ef3fee98579b94964e3bb1cb3e427262c8c068d52319").unwrap()
    );
}

#[test]
fn hash_is_stable_across_calls() {
    for &len in TEST_CASES {
        let input = sample(len);
        assert_eq!(hash(&input), hash(&input));
    }
}

#[test]
fn short_inputs_hash_pairwise_distinct() {
    let a = hash(b"");
    let b = hash(b"f");
    let c = hash(b"foo");
    assert_eq!(a.len(), DIGEST_SIZE);
    assert_ne!(a, b);
    assert_ne!(a, c);
    assert_ne!(b, c);
}

#[test]
fn verify_rejects_every_single_bit_flip() {
    let digest = hash(b"foo");
    assert_eq!(verify(b"foo", &digest), Ok(()));
    for i in 0..DIGEST_SIZE {
        for bit in 0..8 {
            let mut flipped = digest;
            flipped[i] ^= 1 << bit;
            assert_eq!(verify(b"foo", &flipped), Err(Error::HashMismatch));
        }
    }
}

#[test]
fn boundary_lengths_hash_and_verify() {
    for &len in TEST_CASES {
        let input = sample(len);
        let digest = hash(&input);
        assert_eq!(verify(&input, &digest), Ok(()));
        let (a, b) = input.split_at(len / 2);
        assert_eq!(hash_two(a, b), digest);
        assert_eq!(hash_node(&input, b""), digest);
        let mut other = digest;
        other[DIGEST_SIZE - 1] ^= 0x80;
        assert_eq!(verify(&input, &other), Err(Error::HashMismatch));
    }
}

#[test]
fn hash_two_splits_anywhere() {
    let input = sample(100);
    let whole = hash(&input);
    for mid in 0..=input.len() {
        let (a, b) = input.split_at(mid);
        assert_eq!(hash_two(a, b), whole);
    }
}

#[test]
fn root_digest_depends_on_length() {
    let node = sample(64);
    let roots: Vec<_> = [0u64, 1, 64, 4096, 4097, u64::MAX].iter().map(|&len| hash_root(&node, len)).collect();
    for i in 0..roots.len() {
        for j in (i + 1)..roots.len() {
            assert_ne!(roots[i], roots[j]);
        }
    }
}

#[test]
fn root_digest_is_node_digest_under_length_suffix() {
    for &len in &[0u64, 5, 4096, 1 << 40] {
        let node = sample(len.min(200) as usize);
        assert_eq!(hash_root(&node, len), hash_node(&node, &len.to_le_bytes()));
    }
}

#[test]
fn suffixed_node_differs_from_plain_node() {
    for &len in TEST_CASES {
        let node = sample(len.min(CHUNK_SIZE));
        let plain = hash_node(&node, b"");
        assert_eq!(plain, hash(&node));
        assert_ne!(plain, hash_node(&node, &(len as u64).to_le_bytes()));
        assert_ne!(plain, hash_node(&node, b"x"));
    }
}

#[test]
fn le_u64_writes_little_endian() {
    assert_eq!(le_u64(0x0102030405060708), [8, 7, 6, 5, 4, 3, 2, 1]);
    assert_eq!(le_u64(0), [0; 8]);
    assert_eq!(le_u64(u64::MAX), [0xff; 8]);
}

#[test]
fn verify_node_short_input() {
    let input = [7u8; 10];
    let digest = hash_node(&input, b"");
    assert_eq!(verify_node(&input, 20, &digest, b""), Err(Error::ShortInput));
    for len in 11..40 {
        assert_eq!(verify_node(&input, len, &digest, &[1, 2]), Err(Error::ShortInput));
    }
}

#[test]
fn verify_node_returns_verified_prefix() {
    let input = sample(CHUNK_SIZE + 100);
    let suffix = (CHUNK_SIZE as u64).to_le_bytes();
    let digest = hash_node(&input[..CHUNK_SIZE], &suffix);
    assert_eq!(digest, hash_root(&input[..CHUNK_SIZE], CHUNK_SIZE as u64));
    let prefix = verify_node(&input, CHUNK_SIZE, &digest, &suffix).unwrap();
    assert_eq!(prefix, &input[..CHUNK_SIZE]);
    let plain = hash_node(&input[..10], b"");
    assert_eq!(verify_node(&input, 10, &plain, b""), Ok(&input[..10]));
    assert_eq!(verify_node(&input, 0, &hash(b""), b""), Ok(&input[..0]));
}

#[test]
fn verify_node_mismatch() {
    let input = sample(200);
    let digest = hash_node(&input[..100], b"");
    assert_eq!(verify_node(&input, 101, &digest, b""), Err(Error::HashMismatch));
    assert_eq!(verify_node(&input, 100, &digest, &[0; 8]), Err(Error::HashMismatch));
    let mut wrong = digest;
    wrong[5] ^= 4;
    assert_eq!(verify_node(&input, 100, &wrong, b""), Err(Error::HashMismatch));
}
