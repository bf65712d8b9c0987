//! Shamir secret sharing over the scalar field, and the Lagrange coefficients
//! that recombine shares at zero.
use vstd::prelude::*;

use vstd::arithmetic::div_mod::{lemma_add_mod_noop, lemma_mul_mod_noop_left, lemma_mul_mod_noop_right};
use vstd::arithmetic::power::pow;
use std::collections::HashMap;

use crate::field::{fmul, fneg, finv, fr_modulus, fsub, Scalar};
use crate::group::{g1_mul, Point};
use crate::squeeze::values_of;

verus! {

broadcast use vstd::std_specs::hash::group_hash_axioms;

/// `sum_{j < m} c[j] * x^j` over the integers.
pub open spec fn poly_sum(c: Seq<nat>, x: nat, m: nat) -> int
    decreases m,
{
    if m == 0 {
        0
    } else {
        poly_sum(c, x, (m - 1) as nat) + c[m - 1] * pow(x as int, (m - 1) as nat)
    }
}

/// The polynomial with coefficients `c` (constant term first) at `x`, in the field.
pub open spec fn poly_eval(c: Seq<nat>, x: nat) -> nat {
    (poly_sum(c, x, c.len()) % fr_modulus() as int) as nat
}

/// `prod_{j in s, j != i} (-j) * (i - j)^-1`, taken in the order of `s`: the
/// Lagrange coefficient of `i` at zero for the points `s`.
pub open spec fn lagrange_spec(i: nat, s: Seq<usize>) -> nat
    decreases s.len(),
{
    if s.len() == 0 {
        1
    } else {
        let rest = lagrange_spec(i, s.drop_last());
        let j = s.last() as nat;
        if j == i {
            rest
        } else {
            fmul(rest, fmul(fneg(j), finv(fsub(i, j))))
        }
    }
}

/// A `(t, n)` sharing: agent `i`, for `1 <= i <= n`, holds the share `shares[i]`.
pub struct SecretSharing {
    pub threshold: usize,
    total: usize,
    shares: HashMap<usize, Scalar>,
}

impl SecretSharing {
    /// The shares, by agent number.
    pub closed spec fn shares_view(&self) -> Map<usize, Scalar> {
        self.shares@
    }

    /// The number of agents `n`.
    pub closed spec fn total_view(&self) -> usize {
        self.total
    }

    /// The threshold `t`.
    pub closed spec fn threshold_view(&self) -> usize {
        self.threshold
    }

    /// `1 <= t <= n`, agents `1..=n` and no others hold a share, and every
    /// share is a field element.
    pub open spec fn wf(&self) -> bool {
        &&& 1 <= self.threshold_view() <= self.total_view()
        &&& forall|i: usize|
            #[trigger] self.shares_view().contains_key(i) <==> 1 <= i <= self.total_view()
        &&& forall|i: usize| #[trigger] self.shares_view().contains_key(i) ==> self.shares_view()[i].wf()
    }

    /// The shares are the values at `1..=n` of the polynomial with coefficients `c`.
    pub open spec fn shares_from(&self, c: Seq<nat>) -> bool {
        forall|i: usize|
            1 <= i <= self.total_view() ==> (#[trigger] self.shares_view()[i]).val() == poly_eval(
                c,
                i as nat,
            )
    }

    /// The sharing whose polynomial has the given coefficients, constant term
    /// first: agent `i` gets its value at `i`, for `i` in `1..=n`.
    pub fn from_polynomial(coefficients: &Vec<Scalar>, n: usize) -> (r: SecretSharing)
        requires
            1 <= coefficients.len() <= n,
            forall|i: int| 0 <= i < coefficients.len() ==> (#[trigger] coefficients[i]).wf(),
        ensures
            r.wf(),
            r.threshold_view() == coefficients.len(),
            r.total_view() == n,
            r.shares_from(values_of(coefficients@)),
    {
        let ghost c = values_of(coefficients@);
        let t = coefficients.len();
        let mut shares: HashMap<usize, Scalar> = HashMap::new();
        let mut i: usize = 0;
        while i < n
            invariant
                0 <= i <= n,
                1 <= t <= n,
                t == coefficients.len(),
                c == values_of(coefficients@),
                forall|k: int| 0 <= k < coefficients.len() ==> (#[trigger] coefficients[k]).wf(),
                forall|k: usize| #[trigger] shares@.contains_key(k) <==> 1 <= k <= i,
                forall|k: usize| #[trigger] shares@.contains_key(k) ==> shares@[k].wf(),
                forall|k: usize|
                    1 <= k <= i ==> (#[trigger] shares@[k]).val() == poly_eval(c, k as nat),
            decreases n - i,
        {
            let x = Scalar::from_u64((i + 1) as u64);
            let share = Self::evaluate(coefficients, &x);
            shares.insert(i + 1, share);
            i = i + 1;
        }
        SecretSharing { threshold: t, total: n, shares }
    }

    /// The polynomial with coefficients `coefficients` at `x`.
    fn evaluate(coefficients: &Vec<Scalar>, x: &Scalar) -> (r: Scalar)
        requires
            1 <= coefficients.len(),
            forall|i: int| 0 <= i < coefficients.len() ==> (#[trigger] coefficients[i]).wf(),
            x.wf(),
        ensures
            r.wf(),
            r.val() == poly_eval(values_of(coefficients@), x.val()),
    {
        let ghost c = values_of(coefficients@);
        let ghost p = fr_modulus() as int;
        let mut share = coefficients[0];
        let mut x_power = *x;
        let mut j: usize = 1;
        proof {
            assert(pow(x.val() as int, 0) == 1) by {
                vstd::arithmetic::power::lemma_pow0(x.val() as int);
            }
            assert(poly_sum(c, x.val(), 1) == c[0]) by {
                assert(poly_sum(c, x.val(), 0) == 0);
            }
            vstd::arithmetic::div_mod::lemma_small_mod(c[0], fr_modulus());
            vstd::arithmetic::power::lemma_pow1(x.val() as int);
            vstd::arithmetic::div_mod::lemma_small_mod(x.val(), fr_modulus());
        }
        while j < coefficients.len()
            invariant
                1 <= j <= coefficients.len(),
                c == values_of(coefficients@),
                p == fr_modulus() as int,
                forall|i: int| 0 <= i < coefficients.len() ==> (#[trigger] coefficients[i]).wf(),
                x.wf(),
                share.wf(),
                x_power.wf(),
                share.val() as int == poly_sum(c, x.val(), j as nat) % p,
                x_power.val() as int == pow(x.val() as int, j as nat) % p,
            decreases coefficients.len() - j,
        {
            let term = coefficients[j].mul(&x_power);
            let next = share.add(&term);
            let next_power = x_power.mul(x);
            proof {
                let xv = x.val() as int;
                let s = poly_sum(c, x.val(), j as nat);
                let xp = pow(xv, j as nat);
                assert(c[j as int] == coefficients[j as int].val());
                lemma_mul_mod_noop_right(c[j as int] as int, xp, p);
                lemma_add_mod_noop(s, c[j as int] * xp, p);
                assert(poly_sum(c, x.val(), (j + 1) as nat) == s + c[j as int] * xp);
                lemma_mul_mod_noop_left(xp, xv, p);
                vstd::arithmetic::power::lemma_pow_adds(xv, j as nat, 1);
                vstd::arithmetic::power::lemma_pow1(xv);
            }
            share = next;
            x_power = next_power;
            j = j + 1;
        }
        share
    }

    /// A sharing of `k` with threshold `t` among `n` agents: the `t - 1` other
    /// coefficients are drawn at random.
    pub fn generate(k: Scalar, t: usize, n: usize) -> (r: SecretSharing)
        requires
            k.wf(),
            1 <= t <= n,
        ensures
            r.wf(),
            r.threshold_view() == t,
            r.total_view() == n,
            exists|c: Seq<nat>| c.len() == t && c[0] == k.val() && #[trigger] r.shares_from(c),
    {
        let mut coefficients: Vec<Scalar> = vec![k];
        while coefficients.len() < t
            invariant
                1 <= coefficients.len() <= t,
                coefficients[0] == k,
                forall|i: int| 0 <= i < coefficients.len() ==> (#[trigger] coefficients[i]).wf(),
            decreases t - coefficients.len(),
        {
            coefficients.push(Scalar::random());
        }
        let r = Self::from_polynomial(&coefficients, n);
        assert(values_of(coefficients@)[0] == k.val());
        r
    }

    /// The Lagrange coefficient of `i` at zero for the points `indices`.
    pub fn lagrange_coefficient(i: usize, indices: &[usize]) -> (r: Scalar)
        ensures
            r.wf(),
            r.val() == lagrange_spec(i as nat, indices@),
    {
        let i_fr = Scalar::from_u64(i as u64);
        let mut result = Scalar::from_u64(1);
        let mut k: usize = 0;
        assert(indices@.subrange(0, 0) =~= Seq::<usize>::empty());
        while k < indices.len()
            invariant
                k <= indices@.len(),
                i_fr.wf(),
                i_fr.val() == i as nat,
                result.wf(),
                result.val() == lagrange_spec(i as nat, indices@.subrange(0, k as int)),
            decreases indices@.len() - k,
        {
            let j = indices[k];
            assert(indices@.subrange(0, k + 1).drop_last() =~= indices@.subrange(0, k as int));
            if i != j {
                let j_fr = Scalar::from_u64(j as u64);
                let numerator = j_fr.neg();
                let denominator = i_fr.sub(&j_fr);
                proof {
                    lemma_difference_nonzero(i as nat, j as nat);
                }
                let inverse = denominator.invert().unwrap();
                result = result.mul(&numerator.mul(&inverse));
            }
            k = k + 1;
        }
        assert(indices@.subrange(0, indices@.len() as int) =~= indices@);
        result
    }

    /// The shares, by agent number.
    pub fn get_shares(&self) -> (r: &HashMap<usize, Scalar>)
        ensures
            r@ == self.shares_view(),
    {
        &self.shares
    }

    /// The number of agents.
    pub fn total(&self) -> (r: usize)
        ensures
            r == self.total_view(),
    {
        self.total
    }

    /// The share of agent `i`, if there is one.
    pub fn get_share(&self, i: usize) -> (r: Option<Scalar>)
        ensures
            r is Some <==> self.shares_view().contains_key(i),
            r matches Some(s) ==> s == self.shares_view()[i],
    {
        match self.shares.get(&i) {
            Some(s) => Some(*s),
            None => None,
        }
    }

    /// Agent `i`'s contribution to a blinded value: `[k_i] B`.
    pub fn compute_exponent(&self, i: usize, blinded_value: &Point) -> (r: (usize, Point))
        requires
            self.wf(),
            1 <= i <= self.total_view(),
            blinded_value.wf(),
        ensures
            r.0 == i,
            r.1.wf(),
            r.1.view_bytes() == g1_mul(blinded_value.view_bytes(), self.shares_view()[i].val()),
    {
        assert(self.shares_view().contains_key(i));
        let share = *self.shares.get(&i).unwrap();
        (i, blinded_value.mul(&share))
    }
}

/// Two distinct integers below `2^64` differ in the field.
proof fn lemma_difference_nonzero(i: nat, j: nat)
    requires
        i < 0x1_0000_0000_0000_0000,
        j < 0x1_0000_0000_0000_0000,
        i != j,
    ensures
        fsub(i, j) != 0,
{
    let p = fr_modulus();
    vstd::arithmetic::div_mod::lemma_small_mod(j, p);
    if j == 0 {
        vstd::arithmetic::div_mod::lemma_mod_self_0(p as int);
        vstd::arithmetic::div_mod::lemma_small_mod(i, p);
    } else {
        vstd::arithmetic::div_mod::lemma_small_mod((p - j) as nat, p);
        if i >= j {
            vstd::arithmetic::div_mod::lemma_mod_add_multiples_vanish((i - j) as int, p as int);
            vstd::arithmetic::div_mod::lemma_small_mod((i - j) as nat, p);
        } else {
            vstd::arithmetic::div_mod::lemma_small_mod((i + p - j) as nat, p);
        }
    }
}

} // verus!
