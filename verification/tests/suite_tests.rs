use ciphersuite::capabilities::{Aead, HashAlgorithm, KeyAgreement};
use ciphersuite::error::Error;
use ciphersuite::suite::{
    p256_sha256_aes128gcm, registered_suites, x25519_sha256_aes128gcm, CipherSuite,
};

fn unhex(s: &str) -> Vec<u8> {
    let digits: Vec<u8> = s
        .bytes()
        .map(|b| match b {
            b'0'..=b'9' => b - b'0',
            b'a'..=b'f' => b - b'a' + 10,
            b'A'..=b'F' => b - b'A' + 10,
            _ => panic!("not a hex digit"),
        })
        .collect();
    digits.chunks(2).map(|pair| pair[0] * 16 + pair[1]).collect()
}

#[test]
fn derivation_is_deterministic_x25519() {
    let suite = x25519_sha256_aes128gcm();
    let (pk1, sk1) = suite.derive_key_pair(b"hello").unwrap();
    let (pk2, sk2) = suite.derive_key_pair(b"hello").unwrap();
    assert_eq!(pk1.as_bytes(), pk2.as_bytes());
    assert_eq!(sk1.as_bytes(), sk2.as_bytes());
}

#[test]
fn derivation_is_deterministic_p256() {
    let suite = p256_sha256_aes128gcm();
    let (pk1, sk1) = suite.derive_key_pair(b"hello").unwrap();
    let (pk2, sk2) = suite.derive_key_pair(b"hello").unwrap();
    assert_eq!(pk1.as_bytes(), pk2.as_bytes());
    assert_eq!(sk1.as_bytes(), sk2.as_bytes());
}

#[test]
fn derived_pair_is_consistent() {
    for suite in registered_suites() {
        let (pk, sk) = suite.derive_key_pair(b"some seed material").unwrap();
        let rederived = suite.key_agreement.derive_public_key(&sk);
        assert_eq!(rederived.as_bytes(), pk.as_bytes());
    }
}

#[test]
fn derive_hello_x25519_has_expected_shape() {
    let suite = x25519_sha256_aes128gcm();
    let (pk, sk) = suite.derive_key_pair(b"hello").unwrap();
    assert_eq!(pk.as_bytes().len(), 32);
    assert_eq!(sk.as_bytes().len(), 32);
    let rederived = suite.key_agreement.derive_public_key(&sk);
    assert_eq!(rederived.as_bytes(), pk.as_bytes());
}

#[test]
fn derive_empty_input_succeeds_and_differs() {
    let suite = x25519_sha256_aes128gcm();
    let (pk_empty, sk_empty) = suite.derive_key_pair(b"").unwrap();
    let (pk_again, sk_again) = suite.derive_key_pair(b"").unwrap();
    assert_eq!(pk_empty.as_bytes(), pk_again.as_bytes());
    assert_eq!(sk_empty.as_bytes(), sk_again.as_bytes());
    let (pk_hello, sk_hello) = suite.derive_key_pair(b"hello").unwrap();
    assert_ne!(pk_empty.as_bytes(), pk_hello.as_bytes());
    assert_ne!(sk_empty.as_bytes(), sk_hello.as_bytes());
}

#[test]
fn private_key_is_the_digest_of_the_input() {
    // SHA-256 of the empty string, so an identity "hash" would be caught.
    let suite = x25519_sha256_aes128gcm();
    let (_, sk) = suite.derive_key_pair(b"").unwrap();
    let expected = unhex("e3b0c44298fc1c149afbf4c8996fb92427ae41e4649b934ca495991b7852b855");
    assert_eq!(sk.as_bytes(), expected.as_slice());
}

#[test]
fn digest_matches_known_sha256_vector() {
    let digest = HashAlgorithm::Sha256.digest(b"abc");
    let expected = unhex("ba7816bf8f01cfea414140de5dae2223b00361a396177a9cb410ff61f20015ad");
    assert_eq!(digest, expected);
}

#[test]
fn x25519_public_key_matches_known_vector() {
    // The Diffie-Hellman test vector of RFC 7748, section 6.1.
    let scalar = unhex("77076d0a7318a57d3c16c17251b26645df4c2f87ebc0992ab177fba51db92c2a");
    let expected = unhex("8520f0098930a754748b7ddcb43ef75a0dbf3a0d26381af4eba4a98eaa9b4e6a");
    let group = KeyAgreement::X25519;
    let sk = group.private_key_from_bytes(&scalar).unwrap();
    assert_eq!(sk.as_bytes(), scalar.as_slice());
    let pk = group.derive_public_key(&sk);
    assert_eq!(pk.as_bytes(), expected.as_slice());
}

#[test]
fn p256_public_key_of_scalar_one_is_the_base_point() {
    let mut scalar = vec![0u8; 32];
    scalar[31] = 1;
    let expected = unhex(
        "046b17d1f2e12c4247f8bce6e563a440f277037d812deb33a0f4a13945d898c2964fe342e2fe1a7f9b8ee7eb4a7c0f9e162bce33576b315ececbb6406837bf51f5",
    );
    let group = KeyAgreement::P256;
    let sk = group.private_key_from_bytes(&scalar).unwrap();
    assert_eq!(sk.as_bytes(), scalar.as_slice());
    let pk = group.derive_public_key(&sk);
    assert_eq!(pk.as_bytes(), expected.as_slice());
}

#[test]
fn derive_hello_p256_succeeds() {
    let suite = p256_sha256_aes128gcm();
    let (pk, sk) = suite.derive_key_pair(b"hello").unwrap();
    assert_eq!(sk.as_bytes().len(), 32);
    assert_eq!(pk.as_bytes().len(), 65);
    assert_eq!(pk.as_bytes()[0], 4);
}

#[test]
fn wrong_length_scalar_is_rejected() {
    let short = [7u8; 31];
    let long = [7u8; 33];
    for group in [KeyAgreement::X25519, KeyAgreement::P256] {
        assert!(matches!(group.private_key_from_bytes(&short), Err(Error::KeyDerivation)));
        assert!(matches!(group.private_key_from_bytes(&long), Err(Error::KeyDerivation)));
    }
}

#[test]
fn forbidden_p256_scalars_are_rejected() {
    let zero = [0u8; 32];
    let over_order = [0xffu8; 32];
    let group = KeyAgreement::P256;
    assert!(matches!(group.private_key_from_bytes(&zero), Err(Error::KeyDerivation)));
    assert!(matches!(group.private_key_from_bytes(&over_order), Err(Error::KeyDerivation)));
}

#[test]
fn x25519_accepts_any_32_bytes() {
    let zero = [0u8; 32];
    let ones = [0xffu8; 32];
    let group = KeyAgreement::X25519;
    assert!(group.private_key_from_bytes(&zero).is_ok());
    assert!(group.private_key_from_bytes(&ones).is_ok());
}

#[test]
fn suites_with_equal_names_compare_equal() {
    let suite_a = CipherSuite {
        name: "TEST".to_owned(),
        key_agreement: KeyAgreement::X25519,
        authenticated_encryption: Aead::Aes128Gcm,
        hash_algorithm: HashAlgorithm::Sha256,
    };
    let suite_b = CipherSuite {
        name: "TEST".to_owned(),
        key_agreement: KeyAgreement::P256,
        authenticated_encryption: Aead::Aes128Gcm,
        hash_algorithm: HashAlgorithm::Sha256,
    };
    assert!(suite_a == suite_b);
}

#[test]
fn suites_with_different_names_compare_unequal() {
    let a = x25519_sha256_aes128gcm();
    let b = p256_sha256_aes128gcm();
    assert!(a != b);
    assert!(a == x25519_sha256_aes128gcm());
}

#[test]
fn diagnostic_renders_exactly_the_name() {
    assert_eq!(x25519_sha256_aes128gcm().diagnostic(), "X25519_SHA256_AES128GCM");
    assert_eq!(p256_sha256_aes128gcm().diagnostic(), "P256_SHA256_AES128GCM");
}

#[test]
fn registered_digest_and_scalar_lengths_match() {
    let suites = registered_suites();
    assert_eq!(suites.len(), 2);
    for suite in suites {
        assert_eq!(
            suite.hash_algorithm.digest_len(),
            suite.key_agreement.scalar_len(),
        );
    }
}
