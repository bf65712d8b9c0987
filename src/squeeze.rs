//! Reduction of a point or of a byte buffer to one field element with the
//! circom-compatible Poseidon hash.
use vstd::prelude::*;

use ark_ff::{BigInteger, PrimeField};
use pso_poseidon::{Poseidon, PoseidonHasher};

use crate::field::{fr_modulus, le_value, Scalar};
use crate::group::Point;

verus! {

/// The circom-compatible Poseidon hash of the given field elements, with as
/// many inputs as there are elements.
pub uninterp spec fn poseidon_circom(inputs: Seq<nat>) -> nat;

/// The values of a sequence of field elements.
pub open spec fn values_of(s: Seq<Scalar>) -> Seq<nat> {
    s.map_values(|x: Scalar| x.val())
}

/// Relies on `Poseidon::new_circom(n)` and `PoseidonHasher::hash`: for two or
/// three inputs the parameters exist and a hash of that many inputs succeeds.
#[verifier::external_body]
pub(crate) fn poseidon_hash(inputs: &Vec<Scalar>) -> (r: Scalar)
    requires
        inputs.len() == 2 || inputs.len() == 3,
        forall|i: int| 0 <= i < inputs.len() ==> (#[trigger] inputs[i]).wf(),
    ensures
        r.wf(),
        r.val() == poseidon_circom(values_of(inputs@)),
{
    let v: Vec<ark_bn254::Fr> = inputs.iter().map(
        |s| ark_bn254::Fr::from_le_bytes_mod_order(&s.bytes),
    ).collect();
    let h = Poseidon::<ark_bn254::Fr>::new_circom(v.len()).unwrap().hash(&v).unwrap();
    let mut bytes = [0u8; 32];
    bytes.copy_from_slice(&h.into_bigint().to_bytes_le());
    Scalar { bytes }
}

/// `c` followed by zero bytes up to 32 bytes.
pub open spec fn pad32(c: Seq<u8>) -> Seq<u8> {
    c + Seq::new((32 - c.len()) as nat, |i: int| 0u8)
}

/// The field element that a chunk of at most 32 bytes stands for: its
/// zero-padded little-endian value, or zero where that is not canonical.
pub open spec fn chunk_value(c: Seq<u8>) -> nat {
    if le_value(pad32(c)) < fr_modulus() {
        le_value(pad32(c))
    } else {
        0
    }
}

/// The squeeze of a compressed point: its two 16-byte halves, hashed together.
pub open spec fn squeeze_point_spec(b: Seq<u8>) -> nat {
    poseidon_circom(seq![chunk_value(b.subrange(0, 16)), chunk_value(b.subrange(16, 32))])
}

/// The fold over the first `k` of the four chunks of `b`, each `limb` bytes long.
pub open spec fn fold_chunks(b: Seq<u8>, limb: int, k: int) -> nat
    decreases k,
{
    if k <= 0 {
        0
    } else {
        poseidon_circom(
            seq![chunk_value(b.subrange((k - 1) * limb, k * limb)), fold_chunks(b, limb, k - 1)],
        )
    }
}

/// The squeeze of a byte buffer: four equal chunks folded left through the hash.
pub open spec fn squeeze_bytes_spec(b: Seq<u8>) -> nat {
    fold_chunks(b, (b.len() / 4) as int, 4)
}

/// The field element of a chunk `b[off..off + len]`, zero-padded to 32 bytes.
fn chunk_scalar(b: &[u8], off: usize, len: usize) -> (r: Scalar)
    requires
        len <= 32,
        off + len <= b@.len(),
        off + len <= usize::MAX,
    ensures
        r.wf(),
        r.val() == chunk_value(b@.subrange(off as int, off + len)),
{
    let mut buf = [0u8; 32];
    let mut k: usize = 0;
    while k < len
        invariant
            k <= len <= 32,
            off + len <= b@.len(),
            off + len <= usize::MAX,
            forall|m: int| 0 <= m < k ==> buf@[m] == b@[off + m],
            forall|m: int| k <= m < 32 ==> buf@[m] == 0u8,
        decreases len - k,
    {
        buf[k] = b[off + k];
        k = k + 1;
    }
    assert(buf@ =~= pad32(b@.subrange(off as int, off + len)));
    match Scalar::from_bytes(&buf) {
        Some(s) => s,
        None => Scalar::from_u64(0),
    }
}

/// Data that can be squeezed into one field element.
pub trait HashSqueeze {
    /// The input is of a shape that can be squeezed.
    spec fn squeezable(&self) -> bool;

    /// The element that the input squeezes to.
    spec fn squeeze_spec(&self) -> nat;

    fn squeeze(&self) -> (r: Scalar)
        requires
            self.squeezable(),
        ensures
            r.wf(),
            r.val() == self.squeeze_spec(),
    ;
}

impl HashSqueeze for Point {
    open spec fn squeezable(&self) -> bool {
        self.wf()
    }

    open spec fn squeeze_spec(&self) -> nat {
        squeeze_point_spec(self.view_bytes())
    }

    fn squeeze(&self) -> (r: Scalar) {
        let bytes = self.to_bytes();
        let lo = chunk_scalar(&bytes, 0, 16);
        let hi = chunk_scalar(&bytes, 16, 16);
        let inputs = vec![lo, hi];
        let r = poseidon_hash(&inputs);
        assert(values_of(inputs@) =~= seq![lo.val(), hi.val()]);
        r
    }
}

impl HashSqueeze for Vec<u8> {
    /// Four equal chunks of at most 32 bytes each.
    open spec fn squeezable(&self) -> bool {
        self@.len() % 4 == 0 && 4 <= self@.len() <= 128
    }

    open spec fn squeeze_spec(&self) -> nat {
        squeeze_bytes_spec(self@)
    }

    fn squeeze(&self) -> (r: Scalar) {
        let limb = self.len() / 4;
        let mut last = Scalar::from_u64(0);
        let mut k: usize = 0;
        while k < 4
            invariant
                k <= 4,
                limb == self@.len() / 4,
                self@.len() % 4 == 0,
                4 <= self@.len() <= 128,
                last.wf(),
                last.val() == fold_chunks(self@, limb as int, k as int),
            decreases 4 - k,
        {
            assert(limb * k + limb <= self@.len()) by (nonlinear_arith)
                requires
                    k < 4,
                    limb == self@.len() / 4,
                    self@.len() % 4 == 0,
            ;
            let x = chunk_scalar(self.as_slice(), limb * k, limb);
            let inputs = vec![x, last];
            let h = poseidon_hash(&inputs);
            assert(values_of(inputs@) =~= seq![x.val(), last.val()]);
            assert(((k + 1) - 1) * limb == limb * k && (k + 1) * limb == limb * k + limb)
                by (nonlinear_arith);
            assert(h.val() == fold_chunks(self@, limb as int, (k + 1) as int));
            last = h;
            k = k + 1;
        }
        last
    }
}

} // verus!
