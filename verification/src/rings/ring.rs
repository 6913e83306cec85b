//! The ring wrapper.
use crate::groups::GroupOperation;
use crate::monoid::MonoidOperation;
use crate::ops::{
    Addition, Associative, BinaryOperation, Commutative, Element, Identity, Invertible,
    Multiplication, OperationCommutativity,
};
use crate::rings::{
    add_spec, mul_spec, one_spec, zero_spec, Factorability, Integrality, RingOperation,
};
use core::marker::PhantomData;
use vstd::prelude::*;
use vstd::std_specs::ops::{AddSpecImpl, MulSpecImpl};

verus! {

/// A ring element: a wrapper that gives an element type with the
/// capabilities of a ring its operations under one name.
#[derive(Debug, PartialEq, Eq)]
pub struct Ring<E, C, I, F> where
    E: RingOperation<C, I, F>,
    C: OperationCommutativity,
    I: Integrality,
    F: Factorability,
 {
    e: E,
    _commutativity: PhantomData<C>,
    _integrality: PhantomData<I>,
    _factorability: PhantomData<F>,
}

impl<E, C, I, F> Clone for Ring<E, C, I, F> where
    E: RingOperation<C, I, F> + Copy,
    C: OperationCommutativity,
    I: Integrality,
    F: Factorability,
 {
    fn clone(&self) -> (r: Self)
        ensures
            r == *self,
    {
        *self
    }
}

impl<E, C, I, F> Copy for Ring<E, C, I, F> where
    E: RingOperation<C, I, F> + Copy,
    C: OperationCommutativity,
    I: Integrality,
    F: Factorability,
 {

}

impl<E, C, I, F> View for Ring<E, C, I, F> where
    E: RingOperation<C, I, F>,
    C: OperationCommutativity,
    I: Integrality,
    F: Factorability,
 {
    type V = E::V;

    closed spec fn view(&self) -> E::V {
        self.e@
    }
}

impl<E, C, I, F> Ring<E, C, I, F> where
    E: RingOperation<C, I, F>,
    C: OperationCommutativity,
    I: Integrality,
    F: Factorability,
 {
    pub fn new(value: E) -> (r: Self)
        ensures
            r@ == value@,
    {
        Self {
            e: value,
            _commutativity: PhantomData,
            _integrality: PhantomData,
            _factorability: PhantomData,
        }
    }

    /// The multiplicative identity.
    pub fn one() -> (r: Self)
        requires
            <E as Identity<Multiplication>>::id_req(),
        ensures
            r@ == one_spec::<E>(),
            E::member(r@),
    {
        Self::new(E::one())
    }

    /// The additive identity.
    pub fn zero() -> (r: Self)
        requires
            <E as Identity<Addition>>::id_req(),
        ensures
            r@ == zero_spec::<E>(),
            E::member(r@),
    {
        Self::new(E::zero())
    }
}

impl<E, C, I, F> Element for Ring<E, C, I, F> where
    E: RingOperation<C, I, F>,
    C: OperationCommutativity,
    I: Integrality,
    F: Factorability,
 {
    open spec fn member(v: E::V) -> bool {
        E::member(v)
    }

    open spec fn eqv(a: E::V, b: E::V) -> bool {
        E::eqv(a, b)
    }

    open spec fn eq_req(a: E::V, b: E::V) -> bool {
        E::eq_req(a, b)
    }

    fn equals(&self, other: &Self) -> (r: bool) {
        self.e.equals(&other.e)
    }
}

impl<E, C, I, F> BinaryOperation<Addition, Commutative, Associative> for Ring<E, C, I, F> where
    E: RingOperation<C, I, F>,
    C: OperationCommutativity,
    I: Integrality,
    F: Factorability,
 {
    open spec fn op_spec(a: E::V, b: E::V) -> E::V {
        <E as BinaryOperation<Addition, Commutative, Associative>>::op_spec(a, b)
    }

    open spec fn op_req(a: E::V, b: E::V) -> bool {
        <E as BinaryOperation<Addition, Commutative, Associative>>::op_req(a, b)
    }

    fn op(&self, rhs: &Self) -> (r: Self) {
        Self::new(<E as BinaryOperation<Addition, Commutative, Associative>>::op(&self.e, &rhs.e))
    }
}

impl<E, C, I, F> BinaryOperation<Multiplication, C, Associative> for Ring<E, C, I, F> where
    E: RingOperation<C, I, F>,
    C: OperationCommutativity,
    I: Integrality,
    F: Factorability,
 {
    open spec fn op_spec(a: E::V, b: E::V) -> E::V {
        <E as BinaryOperation<Multiplication, C, Associative>>::op_spec(a, b)
    }

    open spec fn op_req(a: E::V, b: E::V) -> bool {
        <E as BinaryOperation<Multiplication, C, Associative>>::op_req(a, b)
    }

    fn op(&self, rhs: &Self) -> (r: Self) {
        Self::new(<E as BinaryOperation<Multiplication, C, Associative>>::op(&self.e, &rhs.e))
    }
}

impl<E, C, I, F> Identity<Addition> for Ring<E, C, I, F> where
    E: RingOperation<C, I, F>,
    C: OperationCommutativity,
    I: Integrality,
    F: Factorability,
 {
    open spec fn id_spec() -> E::V {
        <E as Identity<Addition>>::id_spec()
    }

    open spec fn id_req() -> bool {
        <E as Identity<Addition>>::id_req()
    }

    fn id() -> (r: Self) {
        Self::new(<E as Identity<Addition>>::id())
    }
}

impl<E, C, I, F> Identity<Multiplication> for Ring<E, C, I, F> where
    E: RingOperation<C, I, F>,
    C: OperationCommutativity,
    I: Integrality,
    F: Factorability,
 {
    open spec fn id_spec() -> E::V {
        <E as Identity<Multiplication>>::id_spec()
    }

    open spec fn id_req() -> bool {
        <E as Identity<Multiplication>>::id_req()
    }

    fn id() -> (r: Self) {
        Self::new(<E as Identity<Multiplication>>::id())
    }
}

impl<E, C, I, F> Invertible<Addition> for Ring<E, C, I, F> where
    E: RingOperation<C, I, F>,
    C: OperationCommutativity,
    I: Integrality,
    F: Factorability,
 {
    open spec fn inv_spec(a: E::V) -> E::V {
        <E as Invertible<Addition>>::inv_spec(a)
    }

    open spec fn invertible(a: E::V) -> bool {
        <E as Invertible<Addition>>::invertible(a)
    }

    open spec fn inv_req(a: E::V) -> bool {
        <E as Invertible<Addition>>::inv_req(a)
    }

    fn inv(&self) -> (r: Self) {
        Self::new(<E as Invertible<Addition>>::inv(&self.e))
    }
}

impl<E, C, I, F> MonoidOperation<Addition, Commutative> for Ring<E, C, I, F> where
    E: RingOperation<C, I, F>,
    C: OperationCommutativity,
    I: Integrality,
    F: Factorability,
 {
    proof fn lemma_eqv_reflexive(a: E::V) {
        <E as MonoidOperation<Addition, Commutative>>::lemma_eqv_reflexive(a);
    }

    proof fn lemma_eqv_symmetric(a: E::V, b: E::V) {
        <E as MonoidOperation<Addition, Commutative>>::lemma_eqv_symmetric(a, b);
    }

    proof fn lemma_eqv_transitive(a: E::V, b: E::V, c: E::V) {
        <E as MonoidOperation<Addition, Commutative>>::lemma_eqv_transitive(a, b, c);
    }

    proof fn lemma_closed(a: E::V, b: E::V) {
        <E as MonoidOperation<Addition, Commutative>>::lemma_closed(a, b);
    }

    proof fn lemma_congruent(a1: E::V, a2: E::V, b1: E::V, b2: E::V) {
        <E as MonoidOperation<Addition, Commutative>>::lemma_congruent(a1, a2, b1, b2);
    }

    proof fn lemma_associative(a: E::V, b: E::V, c: E::V) {
        <E as MonoidOperation<Addition, Commutative>>::lemma_associative(a, b, c);
    }

    proof fn lemma_commutative(a: E::V, b: E::V) {
        <E as MonoidOperation<Addition, Commutative>>::lemma_commutative(a, b);
    }

    proof fn lemma_identity(x: E::V) {
        <E as MonoidOperation<Addition, Commutative>>::lemma_identity(x);
    }
}

impl<E, C, I, F> GroupOperation<Addition, Commutative> for Ring<E, C, I, F> where
    E: RingOperation<C, I, F>,
    C: OperationCommutativity,
    I: Integrality,
    F: Factorability,
 {
    proof fn lemma_inverse(x: E::V) {
        <E as GroupOperation<Addition, Commutative>>::lemma_inverse(x);
    }

    proof fn lemma_invertible_closed(a: E::V, b: E::V) {
        <E as GroupOperation<Addition, Commutative>>::lemma_invertible_closed(a, b);
    }

    proof fn lemma_inverse_congruent(a: E::V, b: E::V) {
        <E as GroupOperation<Addition, Commutative>>::lemma_inverse_congruent(a, b);
    }
}

impl<E, C, I, F> MonoidOperation<Multiplication, C> for Ring<E, C, I, F> where
    E: RingOperation<C, I, F>,
    C: OperationCommutativity,
    I: Integrality,
    F: Factorability,
 {
    proof fn lemma_eqv_reflexive(a: E::V) {
        <E as MonoidOperation<Multiplication, C>>::lemma_eqv_reflexive(a);
    }

    proof fn lemma_eqv_symmetric(a: E::V, b: E::V) {
        <E as MonoidOperation<Multiplication, C>>::lemma_eqv_symmetric(a, b);
    }

    proof fn lemma_eqv_transitive(a: E::V, b: E::V, c: E::V) {
        <E as MonoidOperation<Multiplication, C>>::lemma_eqv_transitive(a, b, c);
    }

    proof fn lemma_closed(a: E::V, b: E::V) {
        <E as MonoidOperation<Multiplication, C>>::lemma_closed(a, b);
    }

    proof fn lemma_congruent(a1: E::V, a2: E::V, b1: E::V, b2: E::V) {
        <E as MonoidOperation<Multiplication, C>>::lemma_congruent(a1, a2, b1, b2);
    }

    proof fn lemma_associative(a: E::V, b: E::V, c: E::V) {
        <E as MonoidOperation<Multiplication, C>>::lemma_associative(a, b, c);
    }

    proof fn lemma_commutative(a: E::V, b: E::V) {
        <E as MonoidOperation<Multiplication, C>>::lemma_commutative(a, b);
    }

    proof fn lemma_identity(x: E::V) {
        <E as MonoidOperation<Multiplication, C>>::lemma_identity(x);
    }
}

impl<E, C, I, F> RingOperation<C, I, F> for Ring<E, C, I, F> where
    E: RingOperation<C, I, F>,
    C: OperationCommutativity,
    I: Integrality,
    F: Factorability,
 {
    open spec fn is_integral_domain() -> bool {
        E::is_integral_domain()
    }

    proof fn lemma_negation_total(x: E::V) {
        E::lemma_negation_total(x);
    }

    proof fn lemma_distributive(a: E::V, b: E::V, c: E::V) {
        E::lemma_distributive(a, b, c);
    }

    proof fn lemma_integral(a: E::V, b: E::V) {
        E::lemma_integral(a, b);
    }

    proof fn lemma_nontrivial() {
        E::lemma_nontrivial();
    }
}

impl<E, C, I, F> core::ops::Add for Ring<E, C, I, F> where
    E: RingOperation<C, I, F>,
    C: OperationCommutativity,
    I: Integrality,
    F: Factorability,
 {
    type Output = Ring<E, C, I, F>;

    /// The sum in the ring.
    fn add(self, rhs: Ring<E, C, I, F>) -> (r: Ring<E, C, I, F>)
        ensures
            r@ == add_spec::<E>(self@, rhs@),
            E::member(r@),
    {
        Self::new(<E as BinaryOperation<Addition, Commutative, Associative>>::op(&self.e, &rhs.e))
    }
}

impl<E, C, I, F> AddSpecImpl for Ring<E, C, I, F> where
    E: RingOperation<C, I, F>,
    C: OperationCommutativity,
    I: Integrality,
    F: Factorability,
 {
    /// The result is stated on models, by the `ensures` of `add`.
    open spec fn obeys_add_spec() -> bool {
        false
    }

    open spec fn add_req(self, rhs: Ring<E, C, I, F>) -> bool {
        <E as BinaryOperation<Addition, Commutative, Associative>>::op_req(self@, rhs@)
    }

    open spec fn add_spec(self, rhs: Ring<E, C, I, F>) -> Ring<E, C, I, F> {
        arbitrary()
    }
}

impl<E, C, I, F> core::ops::Mul for Ring<E, C, I, F> where
    E: RingOperation<C, I, F>,
    C: OperationCommutativity,
    I: Integrality,
    F: Factorability,
 {
    type Output = Ring<E, C, I, F>;

    /// The product in the ring.
    fn mul(self, rhs: Ring<E, C, I, F>) -> (r: Ring<E, C, I, F>)
        ensures
            r@ == mul_spec::<E, C>(self@, rhs@),
            E::member(r@),
    {
        Self::new(<E as BinaryOperation<Multiplication, C, Associative>>::op(&self.e, &rhs.e))
    }
}

impl<E, C, I, F> MulSpecImpl for Ring<E, C, I, F> where
    E: RingOperation<C, I, F>,
    C: OperationCommutativity,
    I: Integrality,
    F: Factorability,
 {
    /// The result is stated on models, by the `ensures` of `mul`.
    open spec fn obeys_mul_spec() -> bool {
        false
    }

    open spec fn mul_req(self, rhs: Ring<E, C, I, F>) -> bool {
        <E as BinaryOperation<Multiplication, C, Associative>>::op_req(self@, rhs@)
    }

    open spec fn mul_spec(self, rhs: Ring<E, C, I, F>) -> Ring<E, C, I, F> {
        arbitrary()
    }
}

} // verus!
