//! Ciphersuite descriptors and deterministic key derivation for a
//! group-messaging protocol.
//!
//! A [`suite::CipherSuite`] binds a key-agreement algorithm, a cryptographic
//! hash and an authenticated-encryption algorithm into one named, immutable
//! unit. The derivation routine turns an arbitrary byte string into a
//! reproducible key-agreement key pair by hashing the bytes and validating the
//! digest as a private-key scalar.

pub mod capabilities;
pub mod error;
pub mod primitives;
pub mod suite;
