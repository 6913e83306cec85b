//! Rings: an additive commutative group and a multiplicative monoid on one
//! carrier set, with multiplication distributing over addition.
use crate::fields::FractionField;
use crate::groups::GroupOperation;
use crate::monoid::MonoidOperation;
use crate::ops::{
    Addition, Associative, BinaryOperation, Commutative, Identity, Invertible, Multiplication,
    OperationCommutativity,
};
use crate::primitives::Integer;
use crate::private::Seal;
use vstd::prelude::*;

pub mod ring;
pub mod theory;

pub use ring::Ring;

verus! {

/// The ring of the integers.
pub type Z = Ring<Integer, Commutative, Integral, UniqueFactorisationDomain>;

/// The field of the rational numbers, as a ring.
pub type Q = Ring<
    FractionField<Integer, UniqueFactorisationDomain>,
    Commutative,
    Integral,
    UniqueFactorisationDomain,
>;

/// Tag trait: whether a ring is claimed to be an integral domain.
pub trait Integrality: Seal + Sized {
    /// True for the tag that makes the claim.
    spec fn claimed() -> bool;
}

#[derive(Debug, Default, Clone, Copy, PartialEq, Eq)]
pub struct Integral;

impl Seal for Integral {

}

impl Integrality for Integral {
    open spec fn claimed() -> bool {
        true
    }
}

#[derive(Debug, Default, Clone, Copy, PartialEq, Eq)]
pub struct NonIntegral;

impl Seal for NonIntegral {

}

impl Integrality for NonIntegral {
    open spec fn claimed() -> bool {
        false
    }
}

/// Tag trait: whether a ring is claimed to have unique factorisation.
pub trait Factorability: Seal + Sized {

}

#[derive(Debug, Default, Clone, Copy, PartialEq, Eq)]
pub struct UniqueFactorisationDomain;

impl Seal for UniqueFactorisationDomain {

}

impl Factorability for UniqueFactorisationDomain {

}

pub type UFD = UniqueFactorisationDomain;

#[derive(Debug, Default, Clone, Copy, PartialEq, Eq)]
pub struct NonUniqueFactorisationDomain;

impl Seal for NonUniqueFactorisationDomain {

}

impl Factorability for NonUniqueFactorisationDomain {

}

pub type NonUFD = NonUniqueFactorisationDomain;

/// The sum of two models.
pub open spec fn add_spec<E>(a: E::V, b: E::V) -> E::V where
    E: BinaryOperation<Addition, Commutative, Associative>,
 {
    E::op_spec(a, b)
}

/// The product of two models.
pub open spec fn mul_spec<E, C>(a: E::V, b: E::V) -> E::V where
    E: BinaryOperation<Multiplication, C, Associative>,
    C: OperationCommutativity,
 {
    E::op_spec(a, b)
}

/// The model of the additive inverse.
pub open spec fn neg_spec<E>(a: E::V) -> E::V where E: Invertible<Addition> {
    E::inv_spec(a)
}

/// The model of the additive identity.
pub open spec fn zero_spec<E>() -> E::V where E: Identity<Addition> {
    E::id_spec()
}

/// The model of the multiplicative identity.
pub open spec fn one_spec<E>() -> E::V where E: Identity<Multiplication> {
    E::id_spec()
}

/// The laws of a ring, proved by every type that claims to be one.
///
/// The tag `I` claims that the ring is an integral domain. Where the claim
/// rests on a parameter of the type (a modulus that must be prime),
/// `is_integral_domain` states the condition, and the laws of an integral
/// domain hold under it.
pub trait RingOperation<C, I, F>: GroupOperation<Addition, Commutative> + MonoidOperation<
    Multiplication,
    C,
> where C: OperationCommutativity, I: Integrality, F: Factorability {
    /// The condition under which the claim `I` holds.
    spec fn is_integral_domain() -> bool;

    /// Every member has an additive inverse.
    proof fn lemma_negation_total(x: Self::V)
        requires
            Self::member(x),
        ensures
            <Self as Invertible<Addition>>::invertible(x),
    ;

    /// Distributivity: a·(b + c) = a·b + a·c and (a + b)·c = a·c + b·c.
    proof fn lemma_distributive(a: Self::V, b: Self::V, c: Self::V)
        requires
            Self::member(a),
            Self::member(b),
            Self::member(c),
        ensures
            Self::eqv(
                mul_spec::<Self, C>(a, add_spec::<Self>(b, c)),
                add_spec::<Self>(mul_spec::<Self, C>(a, b), mul_spec::<Self, C>(a, c)),
            ),
            Self::eqv(
                mul_spec::<Self, C>(add_spec::<Self>(a, b), c),
                add_spec::<Self>(mul_spec::<Self, C>(a, c), mul_spec::<Self, C>(b, c)),
            ),
    ;

    /// No zero divisors: the product of two nonzero members is nonzero.
    proof fn lemma_integral(a: Self::V, b: Self::V)
        requires
            I::claimed(),
            Self::is_integral_domain(),
            Self::member(a),
            Self::member(b),
            !Self::eqv(a, zero_spec::<Self>()),
            !Self::eqv(b, zero_spec::<Self>()),
        ensures
            !Self::eqv(mul_spec::<Self, C>(a, b), zero_spec::<Self>()),
    ;

    /// An integral domain is not the trivial ring: 1 ≠ 0.
    proof fn lemma_nontrivial()
        requires
            I::claimed(),
            Self::is_integral_domain(),
        ensures
            Self::member(zero_spec::<Self>()),
            Self::member(one_spec::<Self>()),
            !Self::eqv(one_spec::<Self>(), zero_spec::<Self>()),
    ;

    fn zero() -> (r: Self)
        requires
            <Self as Identity<Addition>>::id_req(),
        ensures
            r@ == zero_spec::<Self>(),
            Self::member(r@),
    {
        <Self as Identity<Addition>>::id()
    }

    fn one() -> (r: Self)
        requires
            <Self as Identity<Multiplication>>::id_req(),
        ensures
            r@ == one_spec::<Self>(),
            Self::member(r@),
    {
        <Self as Identity<Multiplication>>::id()
    }

    fn neg(&self) -> (r: Self)
        requires
            <Self as Invertible<Addition>>::inv_req(self@),
        ensures
            r@ == neg_spec::<Self>(self@),
            Self::member(r@),
    {
        <Self as Invertible<Addition>>::inv(self)
    }

    fn add(&self, rhs: &Self) -> (r: Self)
        requires
            <Self as BinaryOperation<Addition, Commutative, Associative>>::op_req(self@, rhs@),
        ensures
            r@ == add_spec::<Self>(self@, rhs@),
            Self::member(r@),
    {
        <Self as BinaryOperation<Addition, Commutative, Associative>>::op(self, rhs)
    }

    fn mul(&self, rhs: &Self) -> (r: Self)
        requires
            <Self as BinaryOperation<Multiplication, C, Associative>>::op_req(self@, rhs@),
        ensures
            r@ == mul_spec::<Self, C>(self@, rhs@),
            Self::member(r@),
    {
        <Self as BinaryOperation<Multiplication, C, Associative>>::op(self, rhs)
    }
}

/// A ring whose multiplication is commutative.
pub trait CommutativeRing<I: Integrality, F: Factorability>: RingOperation<Commutative, I, F> {

}

impl<I: Integrality, F: Factorability, E: RingOperation<Commutative, I, F>> CommutativeRing<
    I,
    F,
> for E {

}

/// A ring that claims to be an integral domain.
pub trait IntegralRing<C: OperationCommutativity, F: Factorability>: RingOperation<
    C,
    Integral,
    F,
> {

}

impl<C: OperationCommutativity, F: Factorability, E: RingOperation<C, Integral, F>> IntegralRing<
    C,
    F,
> for E {

}

/// a·(b + c) = a·b + a·c and (a + b)·c = a·c + b·c, for these three.
pub open spec fn distributive_at<E, C, I, F>(a: E::V, b: E::V, c: E::V) -> bool where
    E: RingOperation<C, I, F>,
    C: OperationCommutativity,
    I: Integrality,
    F: Factorability,
 {
    &&& E::eqv(
        mul_spec::<E, C>(a, add_spec::<E>(b, c)),
        add_spec::<E>(mul_spec::<E, C>(a, b), mul_spec::<E, C>(a, c)),
    )
    &&& E::eqv(
        mul_spec::<E, C>(add_spec::<E>(a, b), c),
        add_spec::<E>(mul_spec::<E, C>(a, c), mul_spec::<E, C>(b, c)),
    )
}

/// The machine can add these two.
pub open spec fn can_add<E>(a: E::V, b: E::V) -> bool where
    E: BinaryOperation<Addition, Commutative, Associative>,
 {
    E::op_req(a, b)
}

/// The machine can multiply these two.
pub open spec fn can_mul<E, C>(a: E::V, b: E::V) -> bool where
    E: BinaryOperation<Multiplication, C, Associative>,
    C: OperationCommutativity,
 {
    E::op_req(a, b)
}

/// The machine can compute and compare both sides of both equations of
/// `distributive_at`.
pub open spec fn distributivity_checkable<E, C, I, F>(a: E::V, b: E::V, c: E::V) -> bool where
    E: RingOperation<C, I, F>,
    C: OperationCommutativity,
    I: Integrality,
    F: Factorability,
 {
    &&& can_add::<E>(b, c)
    &&& can_mul::<E, C>(a, add_spec::<E>(b, c))
    &&& can_mul::<E, C>(a, b)
    &&& can_mul::<E, C>(a, c)
    &&& can_add::<E>(mul_spec::<E, C>(a, b), mul_spec::<E, C>(a, c))
    &&& E::eq_req(
        mul_spec::<E, C>(a, add_spec::<E>(b, c)),
        add_spec::<E>(mul_spec::<E, C>(a, b), mul_spec::<E, C>(a, c)),
    )
    &&& can_add::<E>(a, b)
    &&& can_mul::<E, C>(add_spec::<E>(a, b), c)
    &&& can_mul::<E, C>(b, c)
    &&& can_add::<E>(mul_spec::<E, C>(a, c), mul_spec::<E, C>(b, c))
    &&& E::eq_req(
        mul_spec::<E, C>(add_spec::<E>(a, b), c),
        add_spec::<E>(mul_spec::<E, C>(a, c), mul_spec::<E, C>(b, c)),
    )
}

/// Checks distributivity on every three neighbours of a sample: whether
/// a·(b + c) = a·b + a·c and (a + b)·c = a·c + b·c for each window a, b, c
/// of `elems`. A sample of members passes.
pub fn test_ring_axioms<E, C, I, F>(elems: &[E]) -> (r: bool) where
    E: RingOperation<C, I, F>,
    C: OperationCommutativity,
    I: Integrality,
    F: Factorability,

    requires
        forall|i: int|
            0 <= i && i + 2 < elems@.len() ==> distributivity_checkable::<E, C, I, F>(
                (#[trigger] elems@[i])@,
                elems@[i + 1]@,
                elems@[i + 2]@,
            ),
    ensures
        r == forall|i: int|
            0 <= i && i + 2 < elems@.len() ==> distributive_at::<E, C, I, F>(
                (#[trigger] elems@[i])@,
                elems@[i + 1]@,
                elems@[i + 2]@,
            ),
        (forall|i: int| 0 <= i < elems@.len() ==> E::member((#[trigger] elems@[i])@)) ==> r,
{
    let n = elems.len();
    if n < 3 {
        return true;
    }
    let mut i: usize = 0;
    while i + 2 < n
        invariant
            n == elems@.len(),
            n >= 3,
            i + 2 <= n,
            forall|j: int|
                0 <= j && j + 2 < elems@.len() ==> distributivity_checkable::<E, C, I, F>(
                    (#[trigger] elems@[j])@,
                    elems@[j + 1]@,
                    elems@[j + 2]@,
                ),
            forall|j: int|
                0 <= j < i ==> distributive_at::<E, C, I, F>(
                    (#[trigger] elems@[j])@,
                    elems@[j + 1]@,
                    elems@[j + 2]@,
                ),
        decreases n - i,
    {
        let a = &elems[i];
        let b = &elems[i + 1];
        let c = &elems[i + 2];
        assert(distributivity_checkable::<E, C, I, F>(elems@[i as int]@, b@, c@));
        let left = a.mul(&b.add(c));
        let left_expanded = a.mul(b).add(&a.mul(c));
        let right = a.add(b).mul(c);
        let right_expanded = a.mul(c).add(&b.mul(c));
        if !left.equals(&left_expanded) || !right.equals(&right_expanded) {
            assert(!distributive_at::<E, C, I, F>(
                elems@[i as int]@,
                elems@[i + 1]@,
                elems@[i + 2]@,
            ));
            proof {
                if E::member(elems@[i as int]@) && E::member(elems@[i + 1]@) && E::member(
                    elems@[i + 2]@,
                ) {
                    E::lemma_distributive(elems@[i as int]@, elems@[i + 1]@, elems@[i + 2]@);
                }
            }
            return false;
        }
        i = i + 1;
    }
    true
}

/// a·b ≠ 0 and b·a ≠ 0, for these two.
pub open spec fn no_zero_product_at<E, C, F>(a: E::V, b: E::V) -> bool where
    E: RingOperation<C, Integral, F>,
    C: OperationCommutativity,
    F: Factorability,
 {
    &&& !E::eqv(mul_spec::<E, C>(a, b), zero_spec::<E>())
    &&& !E::eqv(mul_spec::<E, C>(b, a), zero_spec::<E>())
}

/// The machine can compute both products of `no_zero_product_at` and
/// compare them with zero.
pub open spec fn integrality_checkable<E, C, F>(a: E::V, b: E::V) -> bool where
    E: RingOperation<C, Integral, F>,
    C: OperationCommutativity,
    F: Factorability,
 {
    &&& <E as Identity<Addition>>::id_req()
    &&& can_mul::<E, C>(a, b)
    &&& can_mul::<E, C>(b, a)
    &&& E::eq_req(mul_spec::<E, C>(a, b), zero_spec::<E>())
    &&& E::eq_req(mul_spec::<E, C>(b, a), zero_spec::<E>())
}

/// What `test_integrability` checks holds of all nonzero members of an
/// integral domain.
pub proof fn lemma_no_zero_product<E, C, F>(a: E::V, b: E::V) where
    E: RingOperation<C, Integral, F>,
    C: OperationCommutativity,
    F: Factorability,

    requires
        E::is_integral_domain(),
        E::member(a),
        E::member(b),
        !E::eqv(a, zero_spec::<E>()),
        !E::eqv(b, zero_spec::<E>()),
    ensures
        no_zero_product_at::<E, C, F>(a, b),
{
    E::lemma_integral(a, b);
    E::lemma_integral(b, a);
}

/// Checks on a sample of nonzero elements that the ring has no zero
/// divisors: whether a·b ≠ 0 and b·a ≠ 0 for every two neighbours a, b of
/// `non_zero_elems`. In an integral domain a sample of members passes.
pub fn test_integrability<E, C, F>(non_zero_elems: &[E]) -> (r: bool) where
    E: RingOperation<C, Integral, F>,
    C: OperationCommutativity,
    F: Factorability,

    requires
        forall|i: int|
            0 <= i < non_zero_elems@.len() ==> !E::eqv(
                (#[trigger] non_zero_elems@[i])@,
                zero_spec::<E>(),
            ),
        forall|i: int|
            0 <= i && i + 1 < non_zero_elems@.len() ==> integrality_checkable::<E, C, F>(
                (#[trigger] non_zero_elems@[i])@,
                non_zero_elems@[i + 1]@,
            ),
    ensures
        r == forall|i: int|
            0 <= i && i + 1 < non_zero_elems@.len() ==> no_zero_product_at::<E, C, F>(
                (#[trigger] non_zero_elems@[i])@,
                non_zero_elems@[i + 1]@,
            ),
        E::is_integral_domain() && (forall|i: int|
            0 <= i < non_zero_elems@.len() ==> E::member((#[trigger] non_zero_elems@[i])@)) ==> r,
{
    let n = non_zero_elems.len();
    if n < 2 {
        return true;
    }
    let mut i: usize = 0;
    while i + 1 < n
        invariant
            n == non_zero_elems@.len(),
            n >= 2,
            i + 1 <= n,
            forall|j: int|
                0 <= j < non_zero_elems@.len() ==> !E::eqv(
                    (#[trigger] non_zero_elems@[j])@,
                    zero_spec::<E>(),
                ),
            forall|j: int|
                0 <= j && j + 1 < non_zero_elems@.len() ==> integrality_checkable::<E, C, F>(
                    (#[trigger] non_zero_elems@[j])@,
                    non_zero_elems@[j + 1]@,
                ),
            forall|j: int|
                0 <= j < i ==> no_zero_product_at::<E, C, F>(
                    (#[trigger] non_zero_elems@[j])@,
                    non_zero_elems@[j + 1]@,
                ),
        decreases n - i,
    {
        let a = &non_zero_elems[i];
        let b = &non_zero_elems[i + 1];
        assert(integrality_checkable::<E, C, F>(non_zero_elems@[i as int]@, b@));
        let zero = E::zero();
        if a.mul(b).equals(&zero) || b.mul(a).equals(&zero) {
            assert(!no_zero_product_at::<E, C, F>(
                non_zero_elems@[i as int]@,
                non_zero_elems@[i + 1]@,
            ));
            proof {
                if E::is_integral_domain() && E::member(non_zero_elems@[i as int]@) && E::member(
                    non_zero_elems@[i + 1]@,
                ) {
                    lemma_no_zero_product::<E, C, F>(
                        non_zero_elems@[i as int]@,
                        non_zero_elems@[i + 1]@,
                    );
                }
            }
            return false;
        }
        i = i + 1;
    }
    true
}

} // verus!
