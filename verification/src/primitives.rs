//! Trusted bindings to the cryptographic primitives that the registered
//! suites wire together.
//!
//! Each executable function here makes exactly one call into an outside
//! cryptographic crate. Its result is either named by an uninterpreted
//! spec function (a digest, a derived public key) or stated directly
//! (a validity test). Everything above this module is verified against
//! these contracts.

use vstd::prelude::*;

verus! {

/// The SHA-256 digest of a byte string: 32 bytes, a function of the input
/// bytes alone.
pub uninterp spec fn sha256_of(b: Seq<u8>) -> Seq<u8>;

/// The X25519 public key of a 32-byte private-key scalar: 32 bytes, a
/// function of the scalar bytes alone.
pub uninterp spec fn x25519_public_of(sk: Seq<u8>) -> Seq<u8>;

/// Whether 32 bytes are the big-endian encoding of a valid P-256 private-key
/// scalar: nonzero and below the group order.
pub uninterp spec fn p256_scalar_valid(sk: Seq<u8>) -> bool;

/// The uncompressed SEC1 encoding of the P-256 public key of a valid
/// private-key scalar: 65 bytes, a function of the scalar bytes alone.
pub uninterp spec fn p256_public_of(sk: Seq<u8>) -> Seq<u8>;

/// Relies on `ring::digest::digest` with `ring::digest::SHA256`: the SHA-256
/// digest of the input, 32 bytes long and a function of the input alone.
#[verifier::external_body]
pub(crate) fn sha256_digest(bytes: &[u8]) -> (r: Vec<u8>)
    ensures
        r@ == sha256_of(bytes@),
        r@.len() == 32,
{
    ring::digest::digest(&ring::digest::SHA256, bytes).as_ref().to_vec()
}

/// Relies on `x25519_dalek::PublicKey::from(&StaticSecret)`: scalar
/// multiplication of the base point by the clamped scalar, a function of the
/// 32 private-key bytes alone, yielding a 32-byte Montgomery point.
/// `StaticSecret::from` only converts the argument; it stores the bytes
/// unchanged.
#[verifier::external_body]
pub(crate) fn x25519_public(sk: &[u8]) -> (r: Vec<u8>)
    requires
        sk@.len() == 32,
    ensures
        r@ == x25519_public_of(sk@),
        r@.len() == 32,
{
    let scalar: [u8; 32] = sk.try_into().unwrap();
    let secret = x25519_dalek::StaticSecret::from(scalar);
    x25519_dalek::PublicKey::from(&secret).to_bytes().to_vec()
}

/// Relies on `p256::SecretKey::from_slice`: a 32-byte slice is accepted
/// exactly when it encodes a nonzero big-endian scalar below the P-256 group
/// order.
#[verifier::external_body]
pub(crate) fn p256_scalar_is_valid(sk: &[u8]) -> (r: bool)
    requires
        sk@.len() == 32,
    ensures
        r == p256_scalar_valid(sk@),
{
    p256::SecretKey::from_slice(sk).is_ok()
}

/// Relies on `p256::SecretKey::public_key` and
/// `elliptic_curve::PublicKey::to_sec1_bytes`: the public key is a function
/// of the private-key scalar alone, and P-256 points are SEC1-encoded
/// uncompressed, 65 bytes. `SecretKey::from_slice` only converts the
/// argument and succeeds exactly on valid scalars.
#[verifier::external_body]
pub(crate) fn p256_public(sk: &[u8]) -> (r: Option<Vec<u8>>)
    requires
        sk@.len() == 32,
    ensures
        r is Some <==> p256_scalar_valid(sk@),
        r is Some ==> r->0@ == p256_public_of(sk@) && r->0@.len() == 65,
{
    match p256::SecretKey::from_slice(sk) {
        Ok(key) => Some(key.public_key().to_sec1_bytes().to_vec()),
        Err(_) => None,
    }
}

} // verus!
