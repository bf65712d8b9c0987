//! Points of the G1 group of BN254, held as their 32-byte compressed encoding.
use vstd::prelude::*;

use halo2_axiom::halo2curves::bn256::{G1Compressed, G1};
use halo2_axiom::halo2curves::group::GroupEncoding;
use halo2_axiom::halo2curves::CurveExt;

use crate::field::Scalar;

verus! {

/// What `G1::from_bytes` makes of a compressed encoding, encoded again with
/// `G1::to_bytes`; `None` where the bytes are no point.
pub uninterp spec fn g1_decode(b: Seq<u8>) -> Option<Seq<u8>>;

/// The encoding of the point that `G1::hash_to_curve(domain)` maps `msg` to.
pub uninterp spec fn g1_hash_to_curve(domain: Seq<char>, msg: Seq<u8>) -> Seq<u8>;

/// The encoding of `[k] P`, where `p` encodes `P`.
pub uninterp spec fn g1_mul(p: Seq<u8>, k: nat) -> Seq<u8>;

/// The encoding of `P + Q`, where `a` and `b` encode `P` and `Q`.
pub uninterp spec fn g1_add(a: Seq<u8>, b: Seq<u8>) -> Seq<u8>;

/// A point of G1.
#[derive(Clone, Copy, Debug)]
pub struct Point {
    pub(crate) bytes: [u8; 32],
}

impl Point {
    /// The compressed encoding, as a sequence of bytes.
    pub closed spec fn view_bytes(&self) -> Seq<u8> {
        self.bytes@
    }

    /// The bytes are the canonical encoding of a point.
    pub open spec fn wf(&self) -> bool {
        g1_decode(self.view_bytes()) == Some(self.view_bytes())
    }

    /// The 32-byte compressed encoding.
    pub fn to_bytes(&self) -> (r: [u8; 32])
        ensures
            r@ == self.view_bytes(),
    {
        self.bytes
    }

    /// Relies on `G1::from_bytes` and `G1::to_bytes`: a point is read from its
    /// compressed encoding, and what is kept is its canonical encoding.
    #[verifier::external_body]
    pub fn from_compressed(b: &[u8; 32]) -> (r: Option<Point>)
        ensures
            r is Some <==> g1_decode(b@) is Some,
            r matches Some(p) ==> p.wf() && g1_decode(b@) == Some(p.view_bytes()),
    {
        let mut c = G1Compressed::default();
        c.as_mut().copy_from_slice(b);
        G1::from_bytes(&c).into_option().map(|p| {
            let mut bytes = [0u8; 32];
            bytes.copy_from_slice(p.to_bytes().as_ref());
            Point { bytes }
        })
    }

    /// Relies on `G1::hash_to_curve`: a deterministic map from bytes to points,
    /// separated by the domain tag. It asserts that the tag, with the method and
    /// curve names, stays below 256 bytes; an ASCII tag of at most 64
    /// characters does.
    #[verifier::external_body]
    pub fn hash_to_curve(domain: &str, msg: &[u8; 32]) -> (r: Point)
        requires
            vstd::string::is_ascii(domain),
            domain@.len() <= 64,
        ensures
            r.wf(),
            r.view_bytes() == g1_hash_to_curve(domain@, msg@),
    {
        let p = G1::hash_to_curve(domain)(msg);
        let mut bytes = [0u8; 32];
        bytes.copy_from_slice(p.to_bytes().as_ref());
        Point { bytes }
    }

    /// Relies on `G1 * Fr`: scalar multiplication.
    #[verifier::external_body]
    pub fn mul(&self, k: &Scalar) -> (r: Point)
        requires
            self.wf(),
            k.wf(),
        ensures
            r.wf(),
            r.view_bytes() == g1_mul(self.view_bytes(), k.val()),
    {
        let mut c = G1Compressed::default();
        c.as_mut().copy_from_slice(&self.bytes);
        let p = G1::from_bytes(&c).unwrap();
        let f = halo2_axiom::halo2curves::bn256::Fr::from_bytes(&k.bytes).unwrap();
        let mut bytes = [0u8; 32];
        bytes.copy_from_slice((p * f).to_bytes().as_ref());
        Point { bytes }
    }

    /// Relies on `G1 + G1`: the group law.
    #[verifier::external_body]
    pub(crate) fn add(&self, o: &Point) -> (r: Point)
        requires
            self.wf(),
            o.wf(),
        ensures
            r.wf(),
            r.view_bytes() == g1_add(self.view_bytes(), o.view_bytes()),
    {
        let (mut c, mut d) = (G1Compressed::default(), G1Compressed::default());
        c.as_mut().copy_from_slice(&self.bytes);
        d.as_mut().copy_from_slice(&o.bytes);
        let (p, q) = (G1::from_bytes(&c).unwrap(), G1::from_bytes(&d).unwrap());
        let mut bytes = [0u8; 32];
        bytes.copy_from_slice((p + q).to_bytes().as_ref());
        Point { bytes }
    }
}

} // verus!
