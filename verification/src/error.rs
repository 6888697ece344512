//! Errors raised by the key-derivation routine.

use vstd::prelude::*;

verus! {

/// Error category of this layer.
///
/// Every fallible operation here fails for exactly one reason: the
/// key-agreement capability rejected the candidate private-key scalar
/// (wrong length, or a forbidden value such as zero or a scalar outside the
/// group order). Hashing is infallible for the registered algorithms, so no
/// other capability error can surface on the derivation path.
#[derive(Clone, Copy, PartialEq, Eq, Structural, Debug)]
pub enum Error {
    /// The digest-derived bytes were rejected as a private-key scalar.
    KeyDerivation,
}

} // verus!
