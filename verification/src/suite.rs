//! The ciphersuite descriptor, the registry of named suites, and the
//! deterministic key-derivation routine.
//!
//! A [`CipherSuite`] binds one key-agreement group, one hash algorithm and
//! one authenticated-encryption algorithm into a named, immutable unit. Its
//! name is its sole identity: equality compares names alone, and the
//! diagnostic rendering shows the name and nothing else, so no capability
//! internals can ever leak into logs.

use vstd::prelude::*;

use crate::capabilities::{
    digest_len_spec, digest_spec, public_key_len_spec, public_key_of, scalar_len_spec,
    scalar_value_accepted, Aead, DhPrivateKey, DhPublicKey, HashAlgorithm, KeyAgreement,
};
use crate::error::Error;

verus! {

/// One complete, fixed cryptographic configuration: a key-agreement group, a
/// hash algorithm and an authenticated-encryption algorithm under a unique
/// name.
///
/// The name is the wire-visible identifier and the sole identity of the
/// suite. Distinct registered suites must never share a name; the registry
/// keeps that uniqueness, the type does not enforce it. Every field is
/// read-only for the descriptor's lifetime.
pub struct CipherSuite {
    /// The name of this suite, its sole identity.
    pub name: String,
    /// The key-agreement group this suite wires in.
    pub key_agreement: KeyAgreement,
    /// The authenticated-encryption algorithm this suite wires in.
    pub authenticated_encryption: Aead,
    /// The hash algorithm this suite wires in.
    pub hash_algorithm: HashAlgorithm,
}

/// What `==` means on suites: the names are equal, character for character.
/// No other field participates, so two suites that share a name but wire
/// different capabilities compare equal — a deliberate choice that lets
/// protocol code deduplicate suite lists by identifier alone.
pub open spec fn suite_eq(a: CipherSuite, b: CipherSuite) -> bool {
    a.name@ == b.name@
}

impl PartialEq for CipherSuite {
    /// Suites are compared by name alone, so that suite lists can be
    /// deduplicated by identifier without comparing capability objects.
    fn eq(&self, other: &CipherSuite) -> (r: bool) {
        self.name == other.name
    }
}

impl vstd::std_specs::cmp::PartialEqSpecImpl for CipherSuite {
    open spec fn obeys_eq_spec() -> bool {
        true
    }

    open spec fn eq_spec(&self, other: &CipherSuite) -> bool {
        suite_eq(*self, *other)
    }
}

/// The outcome of key derivation, as a function of the suite's algorithms
/// and the input bytes alone: hash the bytes, and if the key-agreement
/// group accepts the digest as a private-key scalar, the pair is (public
/// key of the digest, the digest); otherwise derivation fails.
///
/// The length side of acceptance is stated over the algorithms' declared
/// lengths — the digest of the suite's hash always has the hash's digest
/// length — so success is decided by the choice of algorithms and, for
/// P-256, by the digest value alone.
pub open spec fn derive_key_pair_spec(s: CipherSuite, b: Seq<u8>) -> Result<(Seq<u8>, Seq<u8>), Error> {
    let scalar = digest_spec(s.hash_algorithm, b);
    if digest_len_spec(s.hash_algorithm) == scalar_len_spec(s.key_agreement)
        && scalar_value_accepted(s.key_agreement, scalar) {
        Ok((public_key_of(s.key_agreement, scalar), scalar))
    } else {
        Err(Error::KeyDerivation)
    }
}

impl CipherSuite {
    /// Renders this suite for diagnostics: exactly the name, nothing else.
    ///
    /// This is a hard security contract: the rendering never formats the
    /// wired capability objects, so no future capability internals — which
    /// could hold key material — can leak into logs through it.
    pub fn diagnostic(&self) -> (r: String)
        ensures
            r@ == self.name@,
    {
        self.name.clone()
    }

    /// Given an arbitrary number of bytes, derives a Diffie-Hellman key
    /// pair: the digest of the bytes under the suite's hash algorithm
    /// becomes the private-key scalar, and the public key is derived from
    /// it deterministically.
    ///
    /// Succeeds if and only if the key-agreement group accepts the digest
    /// as a private-key scalar; for the registered suites the digest length
    /// equals the scalar length by construction, so only a forbidden scalar
    /// value is ever rejected. Every rejection is the `KeyDerivation` error;
    /// nothing panics on any input.
    ///
    /// The mapping is deterministic — the same bytes always yield the same
    /// pair under the same algorithms — which makes it suitable for turning
    /// a known seed into a reproducible key pair, and unsuitable as a
    /// substitute for uniform random key generation.
    pub fn derive_key_pair(&self, bytes: &[u8]) -> (r: Result<(DhPublicKey, DhPrivateKey), Error>)
        ensures
            r is Ok <==> derive_key_pair_spec(*self, bytes@) is Ok,
            r is Ok ==> r->Ok_0.0@ == derive_key_pair_spec(*self, bytes@)->Ok_0.0,
            r is Ok ==> r->Ok_0.1@ == derive_key_pair_spec(*self, bytes@)->Ok_0.1,
            r is Ok ==> r->Ok_0.0.group == self.key_agreement && r->Ok_0.1.group
                == self.key_agreement && r->Ok_0.1.wf(),
            r is Ok ==> r->Ok_0.0@.len() == public_key_len_spec(self.key_agreement)
                && r->Ok_0.1@.len() == digest_len_spec(self.hash_algorithm),
            r is Err ==> r->Err_0 == Error::KeyDerivation,
    {
        let digest = self.hash_algorithm.digest(bytes);
        let private_key = match self.key_agreement.private_key_from_bytes(digest.as_slice()) {
            Ok(key) => key,
            Err(e) => {
                return Err(e);
            },
        };
        let public_key = self.key_agreement.derive_public_key(&private_key);
        Ok((public_key, private_key))
    }
}

/// Whether `s` is the registered X25519 suite: X25519 key agreement,
/// SHA-256, AES-128-GCM, under the wire-visible name.
pub open spec fn is_x25519_suite(s: CipherSuite) -> bool {
    &&& s.name@ == "X25519_SHA256_AES128GCM"@
    &&& s.key_agreement == KeyAgreement::X25519
    &&& s.hash_algorithm == HashAlgorithm::Sha256
    &&& s.authenticated_encryption == Aead::Aes128Gcm
}

/// Whether `s` is the registered P-256 suite: P-256 key agreement, SHA-256,
/// AES-128-GCM, under the wire-visible name.
pub open spec fn is_p256_suite(s: CipherSuite) -> bool {
    &&& s.name@ == "P256_SHA256_AES128GCM"@
    &&& s.key_agreement == KeyAgreement::P256
    &&& s.hash_algorithm == HashAlgorithm::Sha256
    &&& s.authenticated_encryption == Aead::Aes128Gcm
}

/// Whether `s` is one of the registered suites.
pub open spec fn is_registered_suite(s: CipherSuite) -> bool {
    is_x25519_suite(s) || is_p256_suite(s)
}

/// The X25519-SHA256-AES128GCM ciphersuite, advertised externally.
pub fn x25519_sha256_aes128gcm() -> (r: CipherSuite)
    ensures
        is_x25519_suite(r),
{
    CipherSuite {
        name: "X25519_SHA256_AES128GCM".to_owned(),
        key_agreement: KeyAgreement::X25519,
        authenticated_encryption: Aead::Aes128Gcm,
        hash_algorithm: HashAlgorithm::Sha256,
    }
}

/// The P256-SHA256-AES128GCM ciphersuite, for internal protocol use.
pub fn p256_sha256_aes128gcm() -> (r: CipherSuite)
    ensures
        is_p256_suite(r),
{
    CipherSuite {
        name: "P256_SHA256_AES128GCM".to_owned(),
        key_agreement: KeyAgreement::P256,
        authenticated_encryption: Aead::Aes128Gcm,
        hash_algorithm: HashAlgorithm::Sha256,
    }
}

/// The full registry: every named suite this layer defines, in a fixed
/// order. Adding a suite means defining a new name and wiring three
/// capabilities; nothing else changes.
pub fn registered_suites() -> (r: Vec<CipherSuite>)
    ensures
        r@.len() == 2,
        is_x25519_suite(r@[0]),
        is_p256_suite(r@[1]),
        forall|i: int| 0 <= i < r@.len() ==> is_registered_suite(#[trigger] r@[i]),
{
    let mut suites: Vec<CipherSuite> = Vec::new();
    suites.push(x25519_sha256_aes128gcm());
    suites.push(p256_sha256_aes128gcm());
    suites
}

/// Law: key derivation is deterministic. Its outcome is a function of the
/// suite's hash and key-agreement algorithms and the input bytes alone, so
/// two derivations from the same suite and bytes yield identical pairs —
/// and even the suite's name and AEAD play no part.
pub proof fn lemma_derive_key_pair_deterministic(a: CipherSuite, b: CipherSuite, bytes: Seq<u8>)
    requires
        a.hash_algorithm == b.hash_algorithm,
        a.key_agreement == b.key_agreement,
    ensures
        derive_key_pair_spec(a, bytes) == derive_key_pair_spec(b, bytes),
{
}

/// Law: the derived pair is consistent. Whenever derivation succeeds, its
/// public half is exactly the public key the key-agreement group derives
/// from its private half.
pub proof fn lemma_derived_pair_consistent(s: CipherSuite, bytes: Seq<u8>)
    requires
        derive_key_pair_spec(s, bytes) is Ok,
    ensures
        derive_key_pair_spec(s, bytes)->Ok_0.0 == public_key_of(
            s.key_agreement,
            derive_key_pair_spec(s, bytes)->Ok_0.1,
        ),
{
}

/// Law: equality goes by name alone. Two suites with the same name compare
/// equal whatever capabilities they wire — nothing of the key agreement,
/// hash or AEAD is required here. The registry must therefore never give
/// two different configurations one name.
pub proof fn lemma_equality_by_name_only(a: CipherSuite, b: CipherSuite)
    requires
        a.name@ == b.name@,
    ensures
        suite_eq(a, b),
{
}

/// Law: derivation never fails under a suite whose key-agreement group is
/// X25519 and whose digest length matches the group's scalar length: the
/// group accepts every scalar of the right length, so every byte string —
/// the empty one included — derives a pair.
pub proof fn lemma_x25519_derivation_never_fails(s: CipherSuite, bytes: Seq<u8>)
    requires
        s.key_agreement == KeyAgreement::X25519,
        digest_len_spec(s.hash_algorithm) == scalar_len_spec(s.key_agreement),
    ensures
        derive_key_pair_spec(s, bytes) is Ok,
{
}

/// Law: in every registered suite, the digest length of the hash algorithm
/// equals the private-key scalar length of the key-agreement group, so the
/// digest is never rejected for its length.
pub proof fn lemma_registered_suite_lengths_match(s: CipherSuite)
    requires
        is_registered_suite(s),
    ensures
        digest_len_spec(s.hash_algorithm) == scalar_len_spec(s.key_agreement),
{
}

} // verus!
