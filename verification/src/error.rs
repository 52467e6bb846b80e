//! The failures of encoding and decoding.

use vstd::prelude::*;

verus! {

/// Why a multihash could not be written or read. Every failure is returned to
/// the caller; none is recovered from inside the library.
#[derive(Debug, Clone, PartialEq, Eq)]
pub enum MultihashError {
    /// The registry knows the algorithm, but no digest provider computes it.
    UnsupportedAlgorithm,
    /// The payload is longer than the length byte can say.
    PayloadTooLarge,
    /// The digest provider failed; the field is its own message.
    DigestComputationFailed(String),
    /// The first byte of the buffer is no identifier of the registry.
    UnknownAlgorithm(u8),
    /// The buffer ends before its header or its declared payload does.
    Truncated,
    /// The buffer goes on after its declared payload.
    TrailingData,
}

} // verus!
