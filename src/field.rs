//! Elements of the scalar field of BN254, held as their canonical
//! little-endian 32-byte encoding.
use vstd::prelude::*;

use halo2_axiom::halo2curves::bn256::Fr;
use halo2_axiom::halo2curves::ff::Field;

use crate::wide::limbs_value;

verus! {

/// The order of the scalar field of BN254.
pub open spec fn fr_modulus() -> nat {
    21888242871839275222246405745257275088548364400416034343698204186575808495617nat
}

/// The unsigned integer that a little-endian byte string encodes.
pub open spec fn le_value(b: Seq<u8>) -> nat
    decreases b.len(),
{
    if b.len() == 0 {
        0
    } else {
        b[0] as nat + 256 * le_value(b.drop_first())
    }
}

/// The 32-byte little-endian encoding of `v`.
pub open spec fn le_bytes_of(v: nat) -> Seq<u8> {
    choose|b: Seq<u8>| b.len() == 32 && le_value(b) == v
}

/// Byte strings of one length with one value are equal.
pub proof fn lemma_le_value_injective(a: Seq<u8>, b: Seq<u8>)
    requires
        a.len() == b.len(),
        le_value(a) == le_value(b),
    ensures
        a == b,
    decreases a.len(),
{
    if a.len() > 0 {
        let x = le_value(a.drop_first());
        let y = le_value(b.drop_first());
        assert(a[0] as nat + 256 * x == b[0] as nat + 256 * y);
        assert(a[0] == b[0] && x == y);
        lemma_le_value_injective(a.drop_first(), b.drop_first());
        assert(a =~= seq![a[0]] + a.drop_first());
        assert(b =~= seq![b[0]] + b.drop_first());
    }
}

/// `a + b` in the field.
pub open spec fn fadd(a: nat, b: nat) -> nat {
    (a + b) % fr_modulus()
}

/// `a * b` in the field.
pub open spec fn fmul(a: nat, b: nat) -> nat {
    (a * b) % fr_modulus()
}

/// `-a` in the field.
pub open spec fn fneg(a: nat) -> nat {
    ((fr_modulus() - a % fr_modulus()) as nat) % fr_modulus()
}

/// `a - b` in the field.
pub open spec fn fsub(a: nat, b: nat) -> nat {
    fadd(a, fneg(b))
}

/// The multiplicative inverse of `a` in the field (meaningful for `a != 0`;
/// it is unique because the modulus is prime).
pub open spec fn finv(a: nat) -> nat {
    choose|y: nat| y < fr_modulus() && fmul(a, y) == 1
}

/// An element of the scalar field of BN254.
#[derive(Clone, Copy, Debug)]
pub struct Scalar {
    pub(crate) bytes: [u8; 32],
}

impl Scalar {
    /// The integer that the element stands for.
    pub open spec fn val(&self) -> nat {
        le_value(self.bytes_view())
    }

    /// The encoding is canonical: the integer is below the modulus.
    pub open spec fn wf(&self) -> bool {
        self.val() < fr_modulus()
    }

    /// The canonical encoding, as a sequence of bytes.
    pub closed spec fn bytes_view(&self) -> Seq<u8> {
        self.bytes@
    }

    /// The encoding is 32 bytes long.
    pub proof fn lemma_bytes_len(&self)
        ensures
            self.bytes_view().len() == 32,
    {
    }

    /// The encoding is the one that the value determines.
    pub proof fn lemma_canonical(&self)
        ensures
            self.bytes_view() == le_bytes_of(self.val()),
    {
        let b = le_bytes_of(self.val());
        assert(self.bytes_view().len() == 32 && le_value(self.bytes_view()) == self.val());
        lemma_le_value_injective(b, self.bytes_view());
    }

    /// The canonical 32-byte little-endian encoding.
    pub fn to_bytes(&self) -> (r: [u8; 32])
        ensures
            r@ == self.bytes_view(),
    {
        self.bytes
    }

    /// Relies on `Fr::from(u64)`: a small integer is its own field element.
    #[verifier::external_body]
    pub fn from_u64(v: u64) -> (r: Scalar)
        ensures
            r.wf(),
            r.val() == v as nat,
    {
        Scalar { bytes: Fr::from(v).to_bytes() }
    }

    /// Relies on `Fr::from_bytes`: it accepts exactly the encodings of integers
    /// below the modulus.
    #[verifier::external_body]
    pub fn from_bytes(b: &[u8; 32]) -> (r: Option<Scalar>)
        ensures
            r is Some <==> le_value(b@) < fr_modulus(),
            r matches Some(s) ==> s.bytes_view() == b@ && s.wf(),
    {
        Fr::from_bytes(b).into_option().map(|f| Scalar { bytes: f.to_bytes() })
    }

    /// Relies on `Fr::from_raw`: four little-endian limbs are taken to the
    /// congruent field element.
    #[verifier::external_body]
    pub(crate) fn from_raw_limbs(limbs: [u64; 4]) -> (r: Scalar)
        ensures
            r.wf(),
            r.val() == limbs_value(limbs@) % fr_modulus(),
    {
        Scalar { bytes: Fr::from_raw(limbs).to_bytes() }
    }

    /// Relies on `Fr::random` over the operating system's generator: some
    /// element of the field.
    #[verifier::external_body]
    pub fn random() -> (r: Scalar)
        ensures
            r.wf(),
    {
        Scalar { bytes: Fr::random(rand_core::OsRng).to_bytes() }
    }

    /// Relies on `Fr + Fr`.
    #[verifier::external_body]
    pub fn add(&self, o: &Scalar) -> (r: Scalar)
        requires
            self.wf(),
            o.wf(),
        ensures
            r.wf(),
            r.val() == fadd(self.val(), o.val()),
    {
        let a = Fr::from_bytes(&self.bytes).unwrap();
        let b = Fr::from_bytes(&o.bytes).unwrap();
        Scalar { bytes: (a + b).to_bytes() }
    }

    /// Relies on `Fr * Fr`.
    #[verifier::external_body]
    pub fn mul(&self, o: &Scalar) -> (r: Scalar)
        requires
            self.wf(),
            o.wf(),
        ensures
            r.wf(),
            r.val() == fmul(self.val(), o.val()),
    {
        let a = Fr::from_bytes(&self.bytes).unwrap();
        let b = Fr::from_bytes(&o.bytes).unwrap();
        Scalar { bytes: (a * b).to_bytes() }
    }

    /// Relies on `-Fr`.
    #[verifier::external_body]
    pub fn neg(&self) -> (r: Scalar)
        requires
            self.wf(),
        ensures
            r.wf(),
            r.val() == fneg(self.val()),
    {
        let a = Fr::from_bytes(&self.bytes).unwrap();
        Scalar { bytes: (-a).to_bytes() }
    }

    /// Relies on `Fr - Fr`.
    #[verifier::external_body]
    pub(crate) fn sub(&self, o: &Scalar) -> (r: Scalar)
        requires
            self.wf(),
            o.wf(),
        ensures
            r.wf(),
            r.val() == fsub(self.val(), o.val()),
    {
        let a = Fr::from_bytes(&self.bytes).unwrap();
        let b = Fr::from_bytes(&o.bytes).unwrap();
        Scalar { bytes: (a - b).to_bytes() }
    }

    /// Relies on `Fr::invert`: no inverse for zero, the unique one otherwise.
    #[verifier::external_body]
    pub(crate) fn invert(&self) -> (r: Option<Scalar>)
        requires
            self.wf(),
        ensures
            r is None <==> self.val() == 0,
            r matches Some(y) ==> y.wf() && fmul(self.val(), y.val()) == 1 && y.val() == finv(
                self.val(),
            ),
    {
        let a = Fr::from_bytes(&self.bytes).unwrap();
        a.invert().into_option().map(|y| Scalar { bytes: y.to_bytes() })
    }

    /// Equality of field elements, compared byte by byte.
    pub fn equals(&self, o: &Scalar) -> (r: bool)
        ensures
            r == (self.bytes_view() == o.bytes_view()),
    {
        let mut i: usize = 0;
        while i < 32
            invariant
                0 <= i <= 32,
                forall|k: int| 0 <= k < i ==> self.bytes@[k] == o.bytes@[k],
            decreases 32 - i,
        {
            if self.bytes[i] != o.bytes[i] {
                return false;
            }
            i = i + 1;
        }
        assert(self.bytes@ =~= o.bytes@);
        true
    }
}

impl PartialEq for Scalar {
    fn eq(&self, o: &Scalar) -> (r: bool) {
        self.equals(o)
    }
}

impl vstd::std_specs::cmp::PartialEqSpecImpl for Scalar {
    open spec fn obeys_eq_spec() -> bool {
        true
    }

    open spec fn eq_spec(&self, o: &Scalar) -> bool {
        self.bytes_view() == o.bytes_view()
    }
}

impl Eq for Scalar {

}

} // verus!
