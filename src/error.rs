//! The kinds of failure that the library reports.
use vstd::prelude::*;

verus! {

/// Why a fingerprint, a decoding or a cooperation step failed.
#[derive(Clone, Copy, Debug, PartialEq, Eq, Structural)]
pub enum FingerprintError {
    /// A field of the transaction, a compact encoding or a request is malformed.
    InvalidInput,
    /// One peer could not be reached or answered with something unusable.
    PeerUnavailable,
    /// Fewer than the threshold of agents answered.
    QuorumUnavailable,
    /// A cryptographic primitive failed.
    InternalCrypto,
    /// The agents' configuration is inconsistent.
    ConfigInvalid,
}

} // verus!
