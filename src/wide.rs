//! Unsigned 256-bit integers, held as four little-endian 64-bit limbs.
use vstd::prelude::*;

use primitive_types::U256;

verus! {

/// `2^256`.
pub open spec fn wide_bound() -> nat {
    0x1_0000_0000_0000_0000_0000_0000_0000_0000_0000_0000_0000_0000_0000_0000_0000_0000nat
}

/// The integer that four little-endian 64-bit limbs encode.
pub open spec fn limbs_value(l: Seq<u64>) -> nat {
    l[0] as nat + l[1] as nat * 0x1_0000_0000_0000_0000nat + l[2] as nat
        * 0x1_0000_0000_0000_0000_0000_0000_0000_0000nat + l[3] as nat
        * 0x1_0000_0000_0000_0000_0000_0000_0000_0000_0000_0000_0000_0000nat
}

/// `v` as `n` bytes, most significant first.
pub open spec fn be_bytes(v: nat, n: nat) -> Seq<u8> {
    Seq::new(n, |i: int| ((v as int / vstd::arithmetic::power::pow(256, (n - 1 - i) as nat)) % 256) as u8)
}

/// An unsigned 256-bit integer.
#[derive(Clone, Copy, Debug)]
pub struct Wide {
    limbs: [u64; 4],
}

impl Wide {
    pub closed spec fn limbs_view(&self) -> Seq<u64> {
        self.limbs@
    }

    /// The integer that it stands for.
    pub open spec fn val(&self) -> nat {
        limbs_value(self.limbs_view())
    }

    /// The integer with the given four little-endian limbs.
    pub fn from_limbs(limbs: [u64; 4]) -> (r: Wide)
        ensures
            r.val() == limbs_value(limbs@),
    {
        Wide { limbs }
    }

    /// The four little-endian limbs.
    pub fn limbs(&self) -> (r: [u64; 4])
        ensures
            limbs_value(r@) == self.val(),
    {
        self.limbs
    }

    /// Relies on `U256::from(u64)`.
    #[verifier::external_body]
    pub(crate) fn from_u64(v: u64) -> (r: Wide)
        ensures
            r.val() == v as nat,
    {
        Wide { limbs: U256::from(v).0 }
    }

    /// Relies on `U256 + U256`, which panics on overflow.
    #[verifier::external_body]
    pub(crate) fn add(&self, o: &Wide) -> (r: Wide)
        requires
            self.val() + o.val() < wide_bound(),
        ensures
            r.val() == self.val() + o.val(),
    {
        Wide { limbs: (U256(self.limbs) + U256(o.limbs)).0 }
    }

    /// Relies on `U256 * U256`, which panics on overflow.
    #[verifier::external_body]
    pub(crate) fn mul(&self, o: &Wide) -> (r: Wide)
        requires
            self.val() * o.val() < wide_bound(),
        ensures
            r.val() == self.val() * o.val(),
    {
        Wide { limbs: (U256(self.limbs) * U256(o.limbs)).0 }
    }

    /// Relies on `U256::overflowing_add`: the sum modulo `2^256`.
    #[verifier::external_body]
    pub(crate) fn wrapping_add(&self, o: &Wide) -> (r: Wide)
        ensures
            r.val() == (self.val() + o.val()) % wide_bound(),
    {
        Wide { limbs: U256(self.limbs).overflowing_add(U256(o.limbs)).0.0 }
    }

    /// Relies on `U256::overflowing_mul`: the product modulo `2^256`.
    #[verifier::external_body]
    pub(crate) fn wrapping_mul(&self, o: &Wide) -> (r: Wide)
        ensures
            r.val() == (self.val() * o.val()) % wide_bound(),
    {
        Wide { limbs: U256(self.limbs).overflowing_mul(U256(o.limbs)).0.0 }
    }

    /// The value is below `2^256`.
    pub proof fn lemma_bounded(&self)
        ensures
            self.val() < wide_bound(),
    {
        let l = self.limbs_view();
        assert(l[0] < 0x1_0000_0000_0000_0000 && l[1] < 0x1_0000_0000_0000_0000
            && l[2] < 0x1_0000_0000_0000_0000 && l[3] < 0x1_0000_0000_0000_0000);
    }

    /// Relies on `U256 / U256`: the quotient rounded down; it panics on zero.
    #[verifier::external_body]
    pub(crate) fn div(&self, o: &Wide) -> (r: Wide)
        requires
            o.val() != 0,
        ensures
            r.val() == self.val() / o.val(),
    {
        Wide { limbs: (U256(self.limbs) / U256(o.limbs)).0 }
    }

    /// Relies on `U256::to_big_endian`: 32 bytes, most significant first.
    #[verifier::external_body]
    pub(crate) fn to_big_endian(&self) -> (r: [u8; 32])
        ensures
            r@ == be_bytes(self.val(), 32),
    {
        U256(self.limbs).to_big_endian()
    }
}

} // verus!
