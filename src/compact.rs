//! The compact, human-readable rendering of scalars and byte strings: base58.
use vstd::prelude::*;

use crate::error::FingerprintError;
use crate::field::{fr_modulus, le_value, Scalar};

verus! {

/// The base58 text of a byte string.
pub uninterp spec fn base58_encode(b: Seq<u8>) -> Seq<char>;

/// The byte string that a base58 text decodes to; `None` where it is no base58.
pub uninterp spec fn base58_decode(s: Seq<char>) -> Option<Seq<u8>>;

/// Relies on `bs58::encode(..).into_string()`; decoding its text gives the
/// bytes back.
#[verifier::external_body]
fn bs58_encode(b: &[u8]) -> (r: String)
    ensures
        r@ == base58_encode(b@),
        base58_decode(r@) == Some(b@),
{
    bs58::encode(b).into_string()
}

/// Relies on `bs58::decode(..).into_vec()`.
#[verifier::external_body]
fn bs58_decode(s: &str) -> (r: Option<Vec<u8>>)
    ensures
        match r {
            Some(v) => base58_decode(s@) == Some(v@),
            None => base58_decode(s@) is None,
        },
{
    bs58::decode(s).into_vec().ok()
}

/// Values that render as base58 text and are read back from it.
pub trait Compact: Sized {
    /// The bytes that are rendered.
    spec fn compact_bytes(&self) -> Seq<u8>;

    /// The value can be rendered.
    spec fn compactable(&self) -> bool;

    /// A decoded byte string stands for a value.
    spec fn accepts(b: Seq<u8>) -> bool;

    /// The text decodes to the rendered bytes, which are accepted again: what
    /// `unwrap` makes of the text is the value.
    fn compact(&self) -> (r: String)
        requires
            self.compactable(),
        ensures
            r@ == base58_encode(self.compact_bytes()),
            base58_decode(r@) == Some(self.compact_bytes()),
            Self::accepts(self.compact_bytes()),
    ;

    fn unwrap(compacted: &str) -> (r: Result<Self, FingerprintError>)
        ensures
            match base58_decode(compacted@) {
                Some(b) => if Self::accepts(b) {
                    r matches Ok(v) && v.compactable() && v.compact_bytes() == b
                } else {
                    r == Err::<Self, FingerprintError>(FingerprintError::InvalidInput)
                },
                None => r == Err::<Self, FingerprintError>(FingerprintError::InvalidInput),
            },
    ;
}

impl Compact for Scalar {
    open spec fn compact_bytes(&self) -> Seq<u8> {
        self.bytes_view()
    }

    open spec fn compactable(&self) -> bool {
        self.wf()
    }

    /// Exactly 32 bytes, the canonical encoding of a field element.
    open spec fn accepts(b: Seq<u8>) -> bool {
        b.len() == 32 && le_value(b) < fr_modulus()
    }

    fn compact(&self) -> (r: String) {
        proof {
            self.lemma_bytes_len();
        }
        let bytes = self.to_bytes();
        bs58_encode(&bytes)
    }

    fn unwrap(compacted: &str) -> (r: Result<Self, FingerprintError>) {
        let decoded = match bs58_decode(compacted) {
            Some(v) => v,
            None => return Err(FingerprintError::InvalidInput),
        };
        if decoded.len() != 32 {
            return Err(FingerprintError::InvalidInput);
        }
        let mut bytes = [0u8; 32];
        let mut i: usize = 0;
        while i < 32
            invariant
                i <= 32,
                decoded@.len() == 32,
                forall|k: int| 0 <= k < i ==> bytes@[k] == decoded@[k],
            decreases 32 - i,
        {
            bytes[i] = decoded[i];
            i = i + 1;
        }
        assert(bytes@ =~= decoded@);
        match Scalar::from_bytes(&bytes) {
            Some(s) => Ok(s),
            None => Err(FingerprintError::InvalidInput),
        }
    }
}

impl Compact for Vec<u8> {
    open spec fn compact_bytes(&self) -> Seq<u8> {
        self@
    }

    open spec fn compactable(&self) -> bool {
        true
    }

    open spec fn accepts(b: Seq<u8>) -> bool {
        true
    }

    fn compact(&self) -> (r: String) {
        bs58_encode(self.as_slice())
    }

    fn unwrap(compacted: &str) -> (r: Result<Self, FingerprintError>) {
        match bs58_decode(compacted) {
            Some(v) => Ok(v),
            None => Err(FingerprintError::InvalidInput),
        }
    }
}

} // verus!
