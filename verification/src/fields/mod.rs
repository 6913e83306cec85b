//! Fields: commutative rings in which every nonzero element has a
//! multiplicative inverse.
use crate::groups::GroupOperation;
use crate::monoid::MonoidOperation;
use crate::ops::{
    Addition, Associative, BinaryOperation, Commutative, Element, Identity, Invertible,
    Multiplication,
};
use crate::rings::{
    add_spec, mul_spec, one_spec, zero_spec, Integral, RingOperation, UniqueFactorisationDomain,
};
use vstd::prelude::*;
use vstd::std_specs::ops::{AddSpecImpl, MulSpecImpl};

pub mod fraction_field;
pub mod fraction_laws;
pub mod rationals;

pub use fraction_field::{FractionField, Rationals};

verus! {

/// The laws of a field, proved by every type that claims to be one.
///
/// Like the integrality of a ring, the claim may rest on a parameter of
/// the type: the laws hold under `is_integral_domain`.
pub trait FieldOperation: RingOperation<
    Commutative,
    Integral,
    UniqueFactorisationDomain,
> + GroupOperation<Multiplication, Commutative> {
    /// Every nonzero member has a multiplicative inverse.
    proof fn lemma_nonzero_invertible(x: Self::V)
        requires
            Self::is_integral_domain(),
            Self::member(x),
            !Self::eqv(x, zero_spec::<Self>()),
        ensures
            <Self as Invertible<Multiplication>>::invertible(x),
    ;
}

/// A field element: a wrapper that gives an element type with the
/// capabilities of a field its operations under one name.
#[derive(Debug, PartialEq, Eq)]
pub struct Field<E: FieldOperation>(E);

impl<E: FieldOperation + Copy> Clone for Field<E> {
    fn clone(&self) -> (r: Self)
        ensures
            r == *self,
    {
        *self
    }
}

impl<E: FieldOperation + Copy> Copy for Field<E> {

}

impl<E: FieldOperation> View for Field<E> {
    type V = E::V;

    closed spec fn view(&self) -> E::V {
        self.0@
    }
}

impl<E: FieldOperation> Field<E> {
    pub fn new(value: E) -> (r: Self)
        ensures
            r@ == value@,
    {
        Self(value)
    }

    /// The multiplicative identity.
    pub fn one() -> (r: Self)
        requires
            <E as Identity<Multiplication>>::id_req(),
        ensures
            r@ == one_spec::<E>(),
            E::member(r@),
    {
        Self::new(<E as Identity<Multiplication>>::id())
    }

    /// The additive identity.
    pub fn zero() -> (r: Self)
        requires
            <E as Identity<Addition>>::id_req(),
        ensures
            r@ == zero_spec::<E>(),
            E::member(r@),
    {
        Self::new(<E as Identity<Addition>>::id())
    }
}

impl<E: FieldOperation> Element for Field<E> {
    open spec fn member(v: E::V) -> bool {
        E::member(v)
    }

    open spec fn eqv(a: E::V, b: E::V) -> bool {
        E::eqv(a, b)
    }

    open spec fn eq_req(a: E::V, b: E::V) -> bool {
        E::eq_req(a, b)
    }

    fn equals(&self, other: &Self) -> (r: bool) {
        self.0.equals(&other.0)
    }
}

impl<E: FieldOperation> BinaryOperation<Addition, Commutative, Associative> for Field<E> {
    open spec fn op_spec(a: E::V, b: E::V) -> E::V {
        <E as BinaryOperation<Addition, Commutative, Associative>>::op_spec(a, b)
    }

    open spec fn op_req(a: E::V, b: E::V) -> bool {
        <E as BinaryOperation<Addition, Commutative, Associative>>::op_req(a, b)
    }

    fn op(&self, rhs: &Self) -> (r: Self) {
        Self::new(<E as BinaryOperation<Addition, Commutative, Associative>>::op(&self.0, &rhs.0))
    }
}

impl<E: FieldOperation> BinaryOperation<Multiplication, Commutative, Associative> for Field<E> {
    open spec fn op_spec(a: E::V, b: E::V) -> E::V {
        <E as BinaryOperation<Multiplication, Commutative, Associative>>::op_spec(a, b)
    }

    open spec fn op_req(a: E::V, b: E::V) -> bool {
        <E as BinaryOperation<Multiplication, Commutative, Associative>>::op_req(a, b)
    }

    fn op(&self, rhs: &Self) -> (r: Self) {
        Self::new(<E as BinaryOperation<Multiplication, Commutative, Associative>>::op(&self.0, &rhs.0))
    }
}

impl<E: FieldOperation> Identity<Addition> for Field<E> {
    open spec fn id_spec() -> E::V {
        <E as Identity<Addition>>::id_spec()
    }

    open spec fn id_req() -> bool {
        <E as Identity<Addition>>::id_req()
    }

    fn id() -> (r: Self) {
        Self::new(<E as Identity<Addition>>::id())
    }
}

impl<E: FieldOperation> Identity<Multiplication> for Field<E> {
    open spec fn id_spec() -> E::V {
        <E as Identity<Multiplication>>::id_spec()
    }

    open spec fn id_req() -> bool {
        <E as Identity<Multiplication>>::id_req()
    }

    fn id() -> (r: Self) {
        Self::new(<E as Identity<Multiplication>>::id())
    }
}

impl<E: FieldOperation> Invertible<Addition> for Field<E> {
    open spec fn inv_spec(a: E::V) -> E::V {
        <E as Invertible<Addition>>::inv_spec(a)
    }

    open spec fn invertible(a: E::V) -> bool {
        <E as Invertible<Addition>>::invertible(a)
    }

    open spec fn inv_req(a: E::V) -> bool {
        <E as Invertible<Addition>>::inv_req(a)
    }

    fn inv(&self) -> (r: Self) {
        Self::new(<E as Invertible<Addition>>::inv(&self.0))
    }
}

impl<E: FieldOperation> Invertible<Multiplication> for Field<E> {
    open spec fn inv_spec(a: E::V) -> E::V {
        <E as Invertible<Multiplication>>::inv_spec(a)
    }

    open spec fn invertible(a: E::V) -> bool {
        <E as Invertible<Multiplication>>::invertible(a)
    }

    open spec fn inv_req(a: E::V) -> bool {
        <E as Invertible<Multiplication>>::inv_req(a)
    }

    fn inv(&self) -> (r: Self) {
        Self::new(<E as Invertible<Multiplication>>::inv(&self.0))
    }
}

impl<E: FieldOperation> MonoidOperation<Addition, Commutative> for Field<E> {
    proof fn lemma_eqv_reflexive(a: E::V) {
        <E as MonoidOperation<Addition, Commutative>>::lemma_eqv_reflexive(a);
    }

    proof fn lemma_eqv_symmetric(a: E::V, b: E::V) {
        <E as MonoidOperation<Addition, Commutative>>::lemma_eqv_symmetric(a, b);
    }

    proof fn lemma_eqv_transitive(a: E::V, b: E::V, c: E::V) {
        <E as MonoidOperation<Addition, Commutative>>::lemma_eqv_transitive(a, b, c);
    }

    proof fn lemma_closed(a: E::V, b: E::V) {
        <E as MonoidOperation<Addition, Commutative>>::lemma_closed(a, b);
    }

    proof fn lemma_congruent(a1: E::V, a2: E::V, b1: E::V, b2: E::V) {
        <E as MonoidOperation<Addition, Commutative>>::lemma_congruent(a1, a2, b1, b2);
    }

    proof fn lemma_associative(a: E::V, b: E::V, c: E::V) {
        <E as MonoidOperation<Addition, Commutative>>::lemma_associative(a, b, c);
    }

    proof fn lemma_commutative(a: E::V, b: E::V) {
        <E as MonoidOperation<Addition, Commutative>>::lemma_commutative(a, b);
    }

    proof fn lemma_identity(x: E::V) {
        <E as MonoidOperation<Addition, Commutative>>::lemma_identity(x);
    }
}

impl<E: FieldOperation> GroupOperation<Addition, Commutative> for Field<E> {
    proof fn lemma_inverse(x: E::V) {
        <E as GroupOperation<Addition, Commutative>>::lemma_inverse(x);
    }

    proof fn lemma_invertible_closed(a: E::V, b: E::V) {
        <E as GroupOperation<Addition, Commutative>>::lemma_invertible_closed(a, b);
    }

    proof fn lemma_inverse_congruent(a: E::V, b: E::V) {
        <E as GroupOperation<Addition, Commutative>>::lemma_inverse_congruent(a, b);
    }
}

impl<E: FieldOperation> MonoidOperation<Multiplication, Commutative> for Field<E> {
    proof fn lemma_eqv_reflexive(a: E::V) {
        <E as MonoidOperation<Multiplication, Commutative>>::lemma_eqv_reflexive(a);
    }

    proof fn lemma_eqv_symmetric(a: E::V, b: E::V) {
        <E as MonoidOperation<Multiplication, Commutative>>::lemma_eqv_symmetric(a, b);
    }

    proof fn lemma_eqv_transitive(a: E::V, b: E::V, c: E::V) {
        <E as MonoidOperation<Multiplication, Commutative>>::lemma_eqv_transitive(a, b, c);
    }

    proof fn lemma_closed(a: E::V, b: E::V) {
        <E as MonoidOperation<Multiplication, Commutative>>::lemma_closed(a, b);
    }

    proof fn lemma_congruent(a1: E::V, a2: E::V, b1: E::V, b2: E::V) {
        <E as MonoidOperation<Multiplication, Commutative>>::lemma_congruent(a1, a2, b1, b2);
    }

    proof fn lemma_associative(a: E::V, b: E::V, c: E::V) {
        <E as MonoidOperation<Multiplication, Commutative>>::lemma_associative(a, b, c);
    }

    proof fn lemma_commutative(a: E::V, b: E::V) {
        <E as MonoidOperation<Multiplication, Commutative>>::lemma_commutative(a, b);
    }

    proof fn lemma_identity(x: E::V) {
        <E as MonoidOperation<Multiplication, Commutative>>::lemma_identity(x);
    }
}

impl<E: FieldOperation> GroupOperation<Multiplication, Commutative> for Field<E> {
    proof fn lemma_inverse(x: E::V) {
        <E as GroupOperation<Multiplication, Commutative>>::lemma_inverse(x);
    }

    proof fn lemma_invertible_closed(a: E::V, b: E::V) {
        <E as GroupOperation<Multiplication, Commutative>>::lemma_invertible_closed(a, b);
    }

    proof fn lemma_inverse_congruent(a: E::V, b: E::V) {
        <E as GroupOperation<Multiplication, Commutative>>::lemma_inverse_congruent(a, b);
    }
}

impl<E: FieldOperation> RingOperation<Commutative, Integral, UniqueFactorisationDomain> for Field<E> {
    open spec fn is_integral_domain() -> bool {
        E::is_integral_domain()
    }

    proof fn lemma_negation_total(x: E::V) {
        E::lemma_negation_total(x);
    }

    proof fn lemma_distributive(a: E::V, b: E::V, c: E::V) {
        E::lemma_distributive(a, b, c);
    }

    proof fn lemma_integral(a: E::V, b: E::V) {
        E::lemma_integral(a, b);
    }

    proof fn lemma_nontrivial() {
        E::lemma_nontrivial();
    }
}

impl<E: FieldOperation> FieldOperation for Field<E> {
    proof fn lemma_nonzero_invertible(x: E::V) {
        E::lemma_nonzero_invertible(x);
    }
}

impl<E: FieldOperation> core::ops::Add for Field<E> {
    type Output = Field<E>;

    /// The sum in the field.
    fn add(self, rhs: Field<E>) -> (r: Field<E>)
        ensures
            r@ == add_spec::<E>(self@, rhs@),
            E::member(r@),
    {
        Self::new(<E as BinaryOperation<Addition, Commutative, Associative>>::op(&self.0, &rhs.0))
    }
}

impl<E: FieldOperation> AddSpecImpl for Field<E> {
    /// The result is stated on models, by the `ensures` of `add`.
    open spec fn obeys_add_spec() -> bool {
        false
    }

    open spec fn add_req(self, rhs: Field<E>) -> bool {
        <E as BinaryOperation<Addition, Commutative, Associative>>::op_req(self@, rhs@)
    }

    open spec fn add_spec(self, rhs: Field<E>) -> Field<E> {
        arbitrary()
    }
}

impl<E: FieldOperation> core::ops::Mul for Field<E> {
    type Output = Field<E>;

    /// The product in the field.
    fn mul(self, rhs: Field<E>) -> (r: Field<E>)
        ensures
            r@ == mul_spec::<E, Commutative>(self@, rhs@),
            E::member(r@),
    {
        Self::new(<E as BinaryOperation<Multiplication, Commutative, Associative>>::op(&self.0, &rhs.0))
    }
}

impl<E: FieldOperation> MulSpecImpl for Field<E> {
    /// The result is stated on models, by the `ensures` of `mul`.
    open spec fn obeys_mul_spec() -> bool {
        false
    }

    open spec fn mul_req(self, rhs: Field<E>) -> bool {
        <E as BinaryOperation<Multiplication, Commutative, Associative>>::op_req(self@, rhs@)
    }

    open spec fn mul_spec(self, rhs: Field<E>) -> Field<E> {
        arbitrary()
    }
}

} // verus!
