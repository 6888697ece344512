//! The capability tags a ciphersuite wires together — a hash algorithm, a
//! key-agreement group and an authenticated-encryption algorithm — and the
//! key types that key agreement produces.
//!
//! Each capability is a small closed set of variants; a suite holds one of
//! each. The key types carry the bytes that the concrete primitives consume
//! and produce, together with the group they belong to.

use vstd::prelude::*;
use vstd::slice::slice_to_vec;

use crate::error::Error;
use crate::primitives::{
    p256_public, p256_public_of, p256_scalar_is_valid, p256_scalar_valid, sha256_digest,
    sha256_of, x25519_public, x25519_public_of,
};

verus! {

/// A fixed-output-length cryptographic hash algorithm.
#[derive(Clone, Copy, PartialEq, Eq, Structural, Debug)]
pub enum HashAlgorithm {
    /// SHA-256, with a 32-byte digest.
    Sha256,
}

/// A Diffie-Hellman-style key-agreement group.
#[derive(Clone, Copy, PartialEq, Eq, Structural, Debug)]
pub enum KeyAgreement {
    /// X25519: Diffie-Hellman over the Montgomery form of Curve25519.
    X25519,
    /// ECDH over the short-Weierstrass curve NIST P-256.
    P256,
}

/// An authenticated-encryption algorithm. Not exercised by the derivation
/// path; it is part of a suite's composed identity and selectable per suite.
#[derive(Clone, Copy, PartialEq, Eq, Structural, Debug)]
pub enum Aead {
    /// AES-128 in Galois/Counter mode.
    Aes128Gcm,
}

/// The digest of `b` under `h`.
pub open spec fn digest_spec(h: HashAlgorithm, b: Seq<u8>) -> Seq<u8> {
    match h {
        HashAlgorithm::Sha256 => sha256_of(b),
    }
}

/// The digest length of `h`, in bytes.
pub open spec fn digest_len_spec(h: HashAlgorithm) -> nat {
    match h {
        HashAlgorithm::Sha256 => 32,
    }
}

/// The private-key scalar length of `g`, in bytes.
pub open spec fn scalar_len_spec(g: KeyAgreement) -> nat {
    match g {
        KeyAgreement::X25519 => 32,
        KeyAgreement::P256 => 32,
    }
}

/// Whether `g` accepts the value of `sk` as a private-key scalar, length
/// aside. X25519 accepts any scalar (the group clamps it when it is used);
/// P-256 accepts exactly the nonzero scalars below its group order.
pub open spec fn scalar_value_accepted(g: KeyAgreement, sk: Seq<u8>) -> bool {
    match g {
        KeyAgreement::X25519 => true,
        KeyAgreement::P256 => p256_scalar_valid(sk),
    }
}

/// Whether `g` accepts `sk` as a private-key scalar: the scalar length of
/// the group, and a value the group accepts.
pub open spec fn scalar_accepted(g: KeyAgreement, sk: Seq<u8>) -> bool {
    sk.len() == scalar_len_spec(g) && scalar_value_accepted(g, sk)
}

/// The public key that `g` derives from the private-key scalar `sk`.
pub open spec fn public_key_of(g: KeyAgreement, sk: Seq<u8>) -> Seq<u8> {
    match g {
        KeyAgreement::X25519 => x25519_public_of(sk),
        KeyAgreement::P256 => p256_public_of(sk),
    }
}

/// The length of an encoded public key of `g`, in bytes: a 32-byte
/// Montgomery point for X25519, a 65-byte uncompressed SEC1 point for P-256.
pub open spec fn public_key_len_spec(g: KeyAgreement) -> nat {
    match g {
        KeyAgreement::X25519 => 32,
        KeyAgreement::P256 => 65,
    }
}

/// A private key for one key-agreement group: the group tag and the scalar
/// bytes the group accepted. The bytes are exposed read-only; nothing
/// mutates a key after construction.
pub struct DhPrivateKey {
    /// The group this key belongs to.
    pub group: KeyAgreement,
    /// The scalar bytes the group accepted.
    pub bytes: Vec<u8>,
}

impl View for DhPrivateKey {
    type V = Seq<u8>;

    open spec fn view(&self) -> Seq<u8> {
        self.bytes@
    }
}

impl DhPrivateKey {
    /// A well-formed private key holds exactly the scalar bytes its group
    /// accepted.
    pub open spec fn wf(&self) -> bool {
        scalar_accepted(self.group, self@)
    }

    /// The scalar bytes of this key.
    pub fn as_bytes(&self) -> (r: &[u8])
        ensures
            r@ == self@,
    {
        self.bytes.as_slice()
    }
}

/// A public key for one key-agreement group: the group tag and the encoded
/// point bytes the group produced.
pub struct DhPublicKey {
    /// The group this key belongs to.
    pub group: KeyAgreement,
    /// The encoded point bytes the group produced.
    pub bytes: Vec<u8>,
}

impl View for DhPublicKey {
    type V = Seq<u8>;

    open spec fn view(&self) -> Seq<u8> {
        self.bytes@
    }
}

impl DhPublicKey {
    /// The encoded point bytes of this key.
    pub fn as_bytes(&self) -> (r: &[u8])
        ensures
            r@ == self@,
    {
        self.bytes.as_slice()
    }
}

impl HashAlgorithm {
    /// The digest length of this algorithm, in bytes.
    pub fn digest_len(&self) -> (n: usize)
        ensures
            n == digest_len_spec(*self),
    {
        match *self {
            HashAlgorithm::Sha256 => 32,
        }
    }

    /// Hashes `bytes` with this algorithm.
    pub fn digest(&self, bytes: &[u8]) -> (r: Vec<u8>)
        ensures
            r@ == digest_spec(*self, bytes@),
            r@.len() == digest_len_spec(*self),
    {
        match *self {
            HashAlgorithm::Sha256 => sha256_digest(bytes),
        }
    }
}

impl KeyAgreement {
    /// The private-key scalar length of this group, in bytes.
    pub fn scalar_len(&self) -> (n: usize)
        ensures
            n == scalar_len_spec(*self),
    {
        match *self {
            KeyAgreement::X25519 => 32,
            KeyAgreement::P256 => 32,
        }
    }

    /// Validates `bytes` as a private-key scalar for this group and, on
    /// success, returns the private key holding exactly those bytes.
    ///
    /// Returns `Ok` if and only if the group accepts the bytes: any 32 bytes
    /// for X25519, a valid nonzero scalar encoding for P-256. Every
    /// rejection is the `KeyDerivation` error.
    pub fn private_key_from_bytes(&self, bytes: &[u8]) -> (r: Result<DhPrivateKey, Error>)
        ensures
            r is Ok <==> scalar_accepted(*self, bytes@),
            r is Ok ==> r->Ok_0.group == *self && r->Ok_0@ == bytes@ && r->Ok_0.wf(),
            r is Err ==> r->Err_0 == Error::KeyDerivation,
    {
        match *self {
            KeyAgreement::X25519 => {
                if bytes.len() == 32 {
                    Ok(DhPrivateKey { group: *self, bytes: slice_to_vec(bytes) })
                } else {
                    Err(Error::KeyDerivation)
                }
            },
            KeyAgreement::P256 => {
                if bytes.len() == 32 && p256_scalar_is_valid(bytes) {
                    Ok(DhPrivateKey { group: *self, bytes: slice_to_vec(bytes) })
                } else {
                    Err(Error::KeyDerivation)
                }
            },
        }
    }

    /// Derives the public key of `private_key`: a deterministic, infallible,
    /// pure function of the private key.
    pub fn derive_public_key(&self, private_key: &DhPrivateKey) -> (r: DhPublicKey)
        requires
            private_key.group == *self,
            private_key.wf(),
        ensures
            r.group == *self,
            r@ == public_key_of(*self, private_key@),
            r@.len() == public_key_len_spec(*self),
    {
        match *self {
            KeyAgreement::X25519 => {
                DhPublicKey { group: *self, bytes: x25519_public(private_key.as_bytes()) }
            },
            KeyAgreement::P256 => {
                let point = p256_public(private_key.as_bytes());
                DhPublicKey { group: *self, bytes: point.unwrap() }
            },
        }
    }
}

} // verus!
