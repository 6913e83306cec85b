//! Fractions over an integral domain.
use crate::ops::{
    Addition, Associative, BinaryOperation, Commutative, Element, Identity, Invertible,
    Multiplication,
};
use crate::primitives::Integer;
use crate::rings::{
    add_spec, mul_spec, neg_spec, one_spec, zero_spec, Factorability, Integral, RingOperation,
    UniqueFactorisationDomain,
};
use core::marker::PhantomData;
use vstd::prelude::*;
use vstd::std_specs::ops::{AddSpecImpl, MulSpecImpl};

verus! {

/// A fraction p/q over the integral domain `E`, kept as it was made:
/// nothing is reduced to lowest terms.
///
/// The model is the pair of the models of p and q. A pair is a member when
/// p and q are members of `E` and q is not zero. Two pairs denote the same
/// fraction when they agree after cross-multiplication. Over an integral
/// domain the fractions are a field: see the laws in `fraction_laws`.
#[derive(Debug)]
pub struct FractionField<E, F> where
    E: RingOperation<Commutative, Integral, F>,
    F: Factorability,
 {
    num: E,
    den: E,
    _factorability: PhantomData<F>,
}

/// The fractions over the integers.
pub type Rationals = FractionField<Integer, UniqueFactorisationDomain>;

impl<E, F> Clone for FractionField<E, F> where
    E: RingOperation<Commutative, Integral, F> + Copy,
    F: Factorability,
 {
    fn clone(&self) -> (r: Self)
        ensures
            r == *self,
    {
        *self
    }
}

impl<E, F> Copy for FractionField<E, F> where
    E: RingOperation<Commutative, Integral, F> + Copy,
    F: Factorability,
 {

}

impl<E, F> View for FractionField<E, F> where
    E: RingOperation<Commutative, Integral, F> + Copy,
    F: Factorability,
 {
    type V = (E::V, E::V);

    closed spec fn view(&self) -> (E::V, E::V) {
        (self.num@, self.den@)
    }
}

/// p/q is a fraction over an integral domain: `E` is one, p and q are
/// members and q is not zero.
pub open spec fn is_fraction<E, F>(v: (E::V, E::V)) -> bool where
    E: RingOperation<Commutative, Integral, F>,
    F: Factorability,
 {
    &&& E::is_integral_domain()
    &&& E::member(v.0)
    &&& E::member(v.1)
    &&& !E::eqv(v.1, zero_spec::<E>())
}

/// p/q = r/s, by cross-multiplication: p·s = q·r.
pub open spec fn same_fraction<E, F>(a: (E::V, E::V), b: (E::V, E::V)) -> bool where
    E: RingOperation<Commutative, Integral, F>,
    F: Factorability,
 {
    E::eqv(mul_spec::<E, Commutative>(a.0, b.1), mul_spec::<E, Commutative>(a.1, b.0))
}

/// p/q + r/s = (p·s + r·q)/(q·s).
pub open spec fn fraction_sum<E, F>(a: (E::V, E::V), b: (E::V, E::V)) -> (E::V, E::V) where
    E: RingOperation<Commutative, Integral, F>,
    F: Factorability,
 {
    (
        add_spec::<E>(mul_spec::<E, Commutative>(a.0, b.1), mul_spec::<E, Commutative>(b.0, a.1)),
        mul_spec::<E, Commutative>(a.1, b.1),
    )
}

/// (p/q)·(r/s) = (p·r)/(q·s).
pub open spec fn fraction_product<E, F>(a: (E::V, E::V), b: (E::V, E::V)) -> (E::V, E::V) where
    E: RingOperation<Commutative, Integral, F>,
    F: Factorability,
 {
    (mul_spec::<E, Commutative>(a.0, b.0), mul_spec::<E, Commutative>(a.1, b.1))
}

/// The machine can multiply `a` and `b` in `E`.
pub open spec fn can_multiply<E, F>(a: E::V, b: E::V) -> bool where
    E: RingOperation<Commutative, Integral, F>,
    F: Factorability,
 {
    <E as BinaryOperation<Multiplication, Commutative, Associative>>::op_req(a, b)
}

/// The machine can add `a` and `b` in `E`.
pub open spec fn can_add<E, F>(a: E::V, b: E::V) -> bool where
    E: RingOperation<Commutative, Integral, F>,
    F: Factorability,
 {
    <E as BinaryOperation<Addition, Commutative, Associative>>::op_req(a, b)
}

impl<E, F> FractionField<E, F> where
    E: RingOperation<Commutative, Integral, F> + Copy,
    F: Factorability,
 {
    /// The fraction p/q. The denominator must not be zero.
    pub fn new(p: E, q: E) -> (r: Self)
        requires
            is_fraction::<E, F>((p@, q@)),
        ensures
            r@ == (p@, q@),
    {
        Self { num: p, den: q, _factorability: PhantomData }
    }

    /// The numerator, as the fraction holds it.
    pub fn numerator(&self) -> (r: E)
        ensures
            r@ == self@.0,
    {
        self.num
    }

    /// The denominator, as the fraction holds it.
    pub fn denominator(&self) -> (r: E)
        ensures
            r@ == self@.1,
    {
        self.den
    }
}

impl<E, F> Element for FractionField<E, F> where
    E: RingOperation<Commutative, Integral, F> + Copy,
    F: Factorability,
 {
    open spec fn member(v: (E::V, E::V)) -> bool {
        is_fraction::<E, F>(v)
    }

    open spec fn eqv(a: (E::V, E::V), b: (E::V, E::V)) -> bool {
        same_fraction::<E, F>(a, b)
    }

    /// The machine can form both cross products and compare them.
    open spec fn eq_req(a: (E::V, E::V), b: (E::V, E::V)) -> bool {
        &&& can_multiply::<E, F>(a.0, b.1)
        &&& can_multiply::<E, F>(a.1, b.0)
        &&& E::eq_req(
            mul_spec::<E, Commutative>(a.0, b.1),
            mul_spec::<E, Commutative>(a.1, b.0),
        )
    }

    fn equals(&self, other: &Self) -> (r: bool) {
        let left = self.num.mul(&other.den);
        let right = self.den.mul(&other.num);
        left.equals(&right)
    }
}

impl<E, F> BinaryOperation<Addition, Commutative, Associative> for FractionField<E, F> where
    E: RingOperation<Commutative, Integral, F> + Copy,
    F: Factorability,
 {
    open spec fn op_spec(a: (E::V, E::V), b: (E::V, E::V)) -> (E::V, E::V) {
        fraction_sum::<E, F>(a, b)
    }

    /// Both are fractions, and the machine can form p·s, r·q, their sum
    /// and q·s.
    open spec fn op_req(a: (E::V, E::V), b: (E::V, E::V)) -> bool {
        &&& is_fraction::<E, F>(a)
        &&& is_fraction::<E, F>(b)
        &&& can_multiply::<E, F>(a.0, b.1)
        &&& can_multiply::<E, F>(b.0, a.1)
        &&& can_multiply::<E, F>(a.1, b.1)
        &&& can_add::<E, F>(
            mul_spec::<E, Commutative>(a.0, b.1),
            mul_spec::<E, Commutative>(b.0, a.1),
        )
    }

    fn op(&self, rhs: &Self) -> (r: Self) {
        proof {
            E::lemma_integral(self@.1, rhs@.1);
        }
        let left = self.num.mul(&rhs.den);
        let right = rhs.num.mul(&self.den);
        Self::new(left.add(&right), self.den.mul(&rhs.den))
    }
}

impl<E, F> BinaryOperation<Multiplication, Commutative, Associative> for FractionField<E, F> where
    E: RingOperation<Commutative, Integral, F> + Copy,
    F: Factorability,
 {
    open spec fn op_spec(a: (E::V, E::V), b: (E::V, E::V)) -> (E::V, E::V) {
        fraction_product::<E, F>(a, b)
    }

    /// Both are fractions, and the machine can form p·r and q·s.
    open spec fn op_req(a: (E::V, E::V), b: (E::V, E::V)) -> bool {
        &&& is_fraction::<E, F>(a)
        &&& is_fraction::<E, F>(b)
        &&& can_multiply::<E, F>(a.0, b.0)
        &&& can_multiply::<E, F>(a.1, b.1)
    }

    fn op(&self, rhs: &Self) -> (r: Self) {
        proof {
            E::lemma_integral(self@.1, rhs@.1);
        }
        Self::new(self.num.mul(&rhs.num), self.den.mul(&rhs.den))
    }
}

impl<E, F> Identity<Addition> for FractionField<E, F> where
    E: RingOperation<Commutative, Integral, F> + Copy,
    F: Factorability,
 {
    /// 0/1.
    open spec fn id_spec() -> (E::V, E::V) {
        (zero_spec::<E>(), one_spec::<E>())
    }

    /// `E` is an integral domain, and has a zero and a one.
    open spec fn id_req() -> bool {
        &&& E::is_integral_domain()
        &&& <E as Identity<Addition>>::id_req()
        &&& <E as Identity<Multiplication>>::id_req()
    }

    fn id() -> (r: Self) {
        proof {
            E::lemma_nontrivial();
        }
        Self::new(E::zero(), E::one())
    }
}

impl<E, F> Identity<Multiplication> for FractionField<E, F> where
    E: RingOperation<Commutative, Integral, F> + Copy,
    F: Factorability,
 {
    /// 1/1.
    open spec fn id_spec() -> (E::V, E::V) {
        (one_spec::<E>(), one_spec::<E>())
    }

    /// `E` is an integral domain, and has a one.
    open spec fn id_req() -> bool {
        &&& E::is_integral_domain()
        &&& <E as Identity<Multiplication>>::id_req()
    }

    fn id() -> (r: Self) {
        proof {
            E::lemma_nontrivial();
        }
        Self::new(E::one(), E::one())
    }
}

impl<E, F> Invertible<Addition> for FractionField<E, F> where
    E: RingOperation<Commutative, Integral, F> + Copy,
    F: Factorability,
 {
    /// −(p/q) = (−p)/q.
    open spec fn inv_spec(a: (E::V, E::V)) -> (E::V, E::V) {
        (neg_spec::<E>(a.0), a.1)
    }

    open spec fn invertible(a: (E::V, E::V)) -> bool {
        is_fraction::<E, F>(a)
    }

    /// The machine can negate the numerator.
    open spec fn inv_req(a: (E::V, E::V)) -> bool {
        is_fraction::<E, F>(a) && <E as Invertible<Addition>>::inv_req(a.0)
    }

    fn inv(&self) -> (r: Self) {
        Self::new(self.num.neg(), self.den)
    }
}

impl<E, F> Invertible<Multiplication> for FractionField<E, F> where
    E: RingOperation<Commutative, Integral, F> + Copy,
    F: Factorability,
 {
    /// (p/q)⁻¹ = q/p.
    open spec fn inv_spec(a: (E::V, E::V)) -> (E::V, E::V) {
        (a.1, a.0)
    }

    /// The fractions whose numerator is not zero.
    open spec fn invertible(a: (E::V, E::V)) -> bool {
        is_fraction::<E, F>(a) && !E::eqv(a.0, zero_spec::<E>())
    }

    open spec fn inv_req(a: (E::V, E::V)) -> bool {
        is_fraction::<E, F>(a) && !E::eqv(a.0, zero_spec::<E>())
    }

    fn inv(&self) -> (r: Self) {
        Self::new(self.den, self.num)
    }
}

// ---------- operators ----------
impl<E, F> core::ops::Add for FractionField<E, F> where
    E: RingOperation<Commutative, Integral, F> + Copy,
    F: Factorability,
 {
    type Output = FractionField<E, F>;

    /// The sum of two fractions.
    fn add(self, rhs: FractionField<E, F>) -> (r: FractionField<E, F>)
        ensures
            r@ == fraction_sum::<E, F>(self@, rhs@),
            is_fraction::<E, F>(r@),
    {
        <Self as BinaryOperation<Addition, Commutative, Associative>>::op(&self, &rhs)
    }
}

impl<E, F> AddSpecImpl for FractionField<E, F> where
    E: RingOperation<Commutative, Integral, F> + Copy,
    F: Factorability,
 {
    /// The result is stated on models, by the `ensures` of `add`.
    open spec fn obeys_add_spec() -> bool {
        false
    }

    open spec fn add_req(self, rhs: FractionField<E, F>) -> bool {
        <Self as BinaryOperation<Addition, Commutative, Associative>>::op_req(self@, rhs@)
    }

    open spec fn add_spec(self, rhs: FractionField<E, F>) -> FractionField<E, F> {
        arbitrary()
    }
}

impl<E, F> core::ops::Mul for FractionField<E, F> where
    E: RingOperation<Commutative, Integral, F> + Copy,
    F: Factorability,
 {
    type Output = FractionField<E, F>;

    /// The product of two fractions.
    fn mul(self, rhs: FractionField<E, F>) -> (r: FractionField<E, F>)
        ensures
            r@ == fraction_product::<E, F>(self@, rhs@),
            is_fraction::<E, F>(r@),
    {
        <Self as BinaryOperation<Multiplication, Commutative, Associative>>::op(&self, &rhs)
    }
}

impl<E, F> MulSpecImpl for FractionField<E, F> where
    E: RingOperation<Commutative, Integral, F> + Copy,
    F: Factorability,
 {
    /// The result is stated on models, by the `ensures` of `mul`.
    open spec fn obeys_mul_spec() -> bool {
        false
    }

    open spec fn mul_req(self, rhs: FractionField<E, F>) -> bool {
        <Self as BinaryOperation<Multiplication, Commutative, Associative>>::op_req(self@, rhs@)
    }

    open spec fn mul_spec(self, rhs: FractionField<E, F>) -> FractionField<E, F> {
        arbitrary()
    }
}

} // verus!
