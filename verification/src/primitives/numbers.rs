//! The natural numbers and the integers, as far as the machine holds them.
use crate::groups::GroupOperation;
use crate::monoid::MonoidOperation;
use crate::ops::{
    Addition, Associative, BinaryOperation, Commutative, Element, Identity, Invertible,
    Multiplication,
};
use crate::rings::{Factorability, Integrality, RingOperation};
use vstd::arithmetic::mul::{
    lemma_mul_is_associative, lemma_mul_is_commutative, lemma_mul_is_distributive_add,
    lemma_mul_is_distributive_add_other_way, lemma_mul_nonnegative, lemma_mul_nonzero,
};
use vstd::prelude::*;
use vstd::std_specs::ops::{AddSpecImpl, MulSpecImpl};
use vstd::std_specs::convert::FromSpecImpl;

verus! {

/// A natural number. The model is the number; the members are the
/// non-negative integers. Sums and products are computed where they fit.
#[derive(Debug, Clone, Copy, PartialEq, Eq)]
pub struct Natural(usize);

impl View for Natural {
    type V = int;

    closed spec fn view(&self) -> int {
        self.0 as int
    }
}

impl Natural {
    pub fn new(value: usize) -> (r: Self)
        ensures
            r@ == value,
    {
        Natural(value)
    }

    pub fn value(&self) -> (r: usize)
        ensures
            r == self@,
    {
        self.0
    }
}

impl From<usize> for Natural {
    fn from(value: usize) -> (r: Self)
        ensures
            r@ == value,
    {
        Natural(value)
    }
}

impl FromSpecImpl<usize> for Natural {
    open spec fn obeys_from_spec() -> bool {
        true
    }

    closed spec fn from_spec(value: usize) -> Self {
        Natural(value)
    }
}

impl Element for Natural {
    open spec fn member(v: int) -> bool {
        v >= 0
    }

    open spec fn eqv(a: int, b: int) -> bool {
        a == b
    }

    open spec fn eq_req(a: int, b: int) -> bool {
        true
    }

    fn equals(&self, other: &Self) -> (r: bool) {
        self.0 == other.0
    }
}

impl BinaryOperation<Addition, Commutative, Associative> for Natural {
    open spec fn op_spec(a: int, b: int) -> int {
        a + b
    }

    /// The sum fits.
    open spec fn op_req(a: int, b: int) -> bool {
        a >= 0 && b >= 0 && a + b <= usize::MAX
    }

    fn op(&self, rhs: &Self) -> (r: Self) {
        Natural(self.0 + rhs.0)
    }
}

impl BinaryOperation<Multiplication, Commutative, Associative> for Natural {
    open spec fn op_spec(a: int, b: int) -> int {
        a * b
    }

    /// The product fits.
    open spec fn op_req(a: int, b: int) -> bool {
        a >= 0 && b >= 0 && a * b <= usize::MAX
    }

    fn op(&self, rhs: &Self) -> (r: Self) {
        proof {
            lemma_mul_nonnegative(self@, rhs@);
        }
        Natural(self.0 * rhs.0)
    }
}

impl Identity<Addition> for Natural {
    open spec fn id_spec() -> int {
        0
    }

    open spec fn id_req() -> bool {
        true
    }

    fn id() -> (r: Self) {
        Natural(0)
    }
}

impl Identity<Multiplication> for Natural {
    open spec fn id_spec() -> int {
        1
    }

    open spec fn id_req() -> bool {
        true
    }

    fn id() -> (r: Self) {
        Natural(1)
    }
}

impl MonoidOperation<Addition, Commutative> for Natural {
    proof fn lemma_eqv_reflexive(a: int) {
    }

    proof fn lemma_eqv_symmetric(a: int, b: int) {
    }

    proof fn lemma_eqv_transitive(a: int, b: int, c: int) {
    }

    proof fn lemma_closed(a: int, b: int) {
    }

    proof fn lemma_congruent(a1: int, a2: int, b1: int, b2: int) {
    }

    proof fn lemma_associative(a: int, b: int, c: int) {
    }

    proof fn lemma_commutative(a: int, b: int) {
    }

    proof fn lemma_identity(x: int) {
    }
}

impl MonoidOperation<Multiplication, Commutative> for Natural {
    proof fn lemma_eqv_reflexive(a: int) {
    }

    proof fn lemma_eqv_symmetric(a: int, b: int) {
    }

    proof fn lemma_eqv_transitive(a: int, b: int, c: int) {
    }

    proof fn lemma_closed(a: int, b: int) {
        lemma_mul_nonnegative(a, b);
    }

    proof fn lemma_congruent(a1: int, a2: int, b1: int, b2: int) {
    }

    proof fn lemma_associative(a: int, b: int, c: int) {
        lemma_mul_is_associative(a, b, c);
    }

    proof fn lemma_commutative(a: int, b: int) {
        lemma_mul_is_commutative(a, b);
    }

    proof fn lemma_identity(x: int) {
    }
}

/// An integer. The model is the number; the members are all integers, so
/// the laws of the ring of integers hold of the models. Sums, products and
/// negations are computed where they fit.
#[derive(Debug, Clone, Copy, PartialEq, Eq)]
pub struct Integer(isize);

impl View for Integer {
    type V = int;

    closed spec fn view(&self) -> int {
        self.0 as int
    }
}

impl Integer {
    pub fn new(value: isize) -> (r: Self)
        ensures
            r@ == value,
    {
        Integer(value)
    }

    pub fn value(&self) -> (r: isize)
        ensures
            r == self@,
    {
        self.0
    }
}

impl From<isize> for Integer {
    fn from(value: isize) -> (r: Self)
        ensures
            r@ == value,
    {
        Integer(value)
    }
}

impl FromSpecImpl<isize> for Integer {
    open spec fn obeys_from_spec() -> bool {
        true
    }

    closed spec fn from_spec(value: isize) -> Self {
        Integer(value)
    }
}

impl Element for Integer {
    open spec fn member(v: int) -> bool {
        true
    }

    open spec fn eqv(a: int, b: int) -> bool {
        a == b
    }

    open spec fn eq_req(a: int, b: int) -> bool {
        true
    }

    fn equals(&self, other: &Self) -> (r: bool) {
        self.0 == other.0
    }
}

impl BinaryOperation<Addition, Commutative, Associative> for Integer {
    open spec fn op_spec(a: int, b: int) -> int {
        a + b
    }

    /// The sum fits.
    open spec fn op_req(a: int, b: int) -> bool {
        isize::MIN <= a + b <= isize::MAX
    }

    fn op(&self, rhs: &Self) -> (r: Self) {
        Integer(self.0 + rhs.0)
    }
}

impl BinaryOperation<Multiplication, Commutative, Associative> for Integer {
    open spec fn op_spec(a: int, b: int) -> int {
        a * b
    }

    /// The product fits.
    open spec fn op_req(a: int, b: int) -> bool {
        isize::MIN <= a * b <= isize::MAX
    }

    fn op(&self, rhs: &Self) -> (r: Self) {
        Integer(self.0 * rhs.0)
    }
}

impl Identity<Addition> for Integer {
    open spec fn id_spec() -> int {
        0
    }

    open spec fn id_req() -> bool {
        true
    }

    fn id() -> (r: Self) {
        Integer(0)
    }
}

impl Identity<Multiplication> for Integer {
    open spec fn id_spec() -> int {
        1
    }

    open spec fn id_req() -> bool {
        true
    }

    fn id() -> (r: Self) {
        Integer(1)
    }
}

impl Invertible<Addition> for Integer {
    open spec fn inv_spec(a: int) -> int {
        -a
    }

    open spec fn invertible(a: int) -> bool {
        true
    }

    /// The negation fits.
    open spec fn inv_req(a: int) -> bool {
        isize::MIN <= -a <= isize::MAX
    }

    fn inv(&self) -> (r: Self) {
        Integer(-self.0)
    }
}

impl MonoidOperation<Addition, Commutative> for Integer {
    proof fn lemma_eqv_reflexive(a: int) {
    }

    proof fn lemma_eqv_symmetric(a: int, b: int) {
    }

    proof fn lemma_eqv_transitive(a: int, b: int, c: int) {
    }

    proof fn lemma_closed(a: int, b: int) {
    }

    proof fn lemma_congruent(a1: int, a2: int, b1: int, b2: int) {
    }

    proof fn lemma_associative(a: int, b: int, c: int) {
    }

    proof fn lemma_commutative(a: int, b: int) {
    }

    proof fn lemma_identity(x: int) {
    }
}

impl GroupOperation<Addition, Commutative> for Integer {
    proof fn lemma_inverse(x: int) {
    }

    proof fn lemma_invertible_closed(a: int, b: int) {
    }

    proof fn lemma_inverse_congruent(a: int, b: int) {
    }
}

impl MonoidOperation<Multiplication, Commutative> for Integer {
    proof fn lemma_eqv_reflexive(a: int) {
    }

    proof fn lemma_eqv_symmetric(a: int, b: int) {
    }

    proof fn lemma_eqv_transitive(a: int, b: int, c: int) {
    }

    proof fn lemma_closed(a: int, b: int) {
    }

    proof fn lemma_congruent(a1: int, a2: int, b1: int, b2: int) {
    }

    proof fn lemma_associative(a: int, b: int, c: int) {
        lemma_mul_is_associative(a, b, c);
    }

    proof fn lemma_commutative(a: int, b: int) {
        lemma_mul_is_commutative(a, b);
    }

    proof fn lemma_identity(x: int) {
    }
}

impl<I: Integrality, F: Factorability> RingOperation<Commutative, I, F> for Integer {
    /// The integers have no zero divisors.
    open spec fn is_integral_domain() -> bool {
        true
    }

    proof fn lemma_negation_total(x: int) {
    }

    proof fn lemma_distributive(a: int, b: int, c: int) {
        lemma_mul_is_distributive_add(a, b, c);
        lemma_mul_is_distributive_add_other_way(c, a, b);
    }

    proof fn lemma_integral(a: int, b: int) {
        lemma_mul_nonzero(a, b);
    }

    proof fn lemma_nontrivial() {
    }
}

// ---------- operators ----------
impl core::ops::Add for Natural {
    type Output = Natural;

    /// The sum.
    fn add(self, rhs: Natural) -> (r: Natural)
        ensures
            r@ == <Natural as BinaryOperation<Addition, Commutative, Associative>>::op_spec(self@, rhs@),
            Self::member(r@),
    {
        <Natural as BinaryOperation<Addition, Commutative, Associative>>::op(&self, &rhs)
    }
}

impl AddSpecImpl for Natural {
    /// The result is stated on models, by the `ensures` of `add`.
    open spec fn obeys_add_spec() -> bool {
        false
    }

    open spec fn add_req(self, rhs: Natural) -> bool {
        <Natural as BinaryOperation<Addition, Commutative, Associative>>::op_req(self@, rhs@)
    }

    open spec fn add_spec(self, rhs: Natural) -> Natural {
        arbitrary()
    }
}

impl core::ops::Mul for Natural {
    type Output = Natural;

    /// The product.
    fn mul(self, rhs: Natural) -> (r: Natural)
        ensures
            r@ == <Natural as BinaryOperation<Multiplication, Commutative, Associative>>::op_spec(self@, rhs@),
            Self::member(r@),
    {
        <Natural as BinaryOperation<Multiplication, Commutative, Associative>>::op(&self, &rhs)
    }
}

impl MulSpecImpl for Natural {
    /// The result is stated on models, by the `ensures` of `mul`.
    open spec fn obeys_mul_spec() -> bool {
        false
    }

    open spec fn mul_req(self, rhs: Natural) -> bool {
        <Natural as BinaryOperation<Multiplication, Commutative, Associative>>::op_req(self@, rhs@)
    }

    open spec fn mul_spec(self, rhs: Natural) -> Natural {
        arbitrary()
    }
}

impl core::ops::Add for Integer {
    type Output = Integer;

    /// The sum.
    fn add(self, rhs: Integer) -> (r: Integer)
        ensures
            r@ == <Integer as BinaryOperation<Addition, Commutative, Associative>>::op_spec(self@, rhs@),
            Self::member(r@),
    {
        <Integer as BinaryOperation<Addition, Commutative, Associative>>::op(&self, &rhs)
    }
}

impl AddSpecImpl for Integer {
    /// The result is stated on models, by the `ensures` of `add`.
    open spec fn obeys_add_spec() -> bool {
        false
    }

    open spec fn add_req(self, rhs: Integer) -> bool {
        <Integer as BinaryOperation<Addition, Commutative, Associative>>::op_req(self@, rhs@)
    }

    open spec fn add_spec(self, rhs: Integer) -> Integer {
        arbitrary()
    }
}

impl core::ops::Mul for Integer {
    type Output = Integer;

    /// The product.
    fn mul(self, rhs: Integer) -> (r: Integer)
        ensures
            r@ == <Integer as BinaryOperation<Multiplication, Commutative, Associative>>::op_spec(self@, rhs@),
            Self::member(r@),
    {
        <Integer as BinaryOperation<Multiplication, Commutative, Associative>>::op(&self, &rhs)
    }
}

impl MulSpecImpl for Integer {
    /// The result is stated on models, by the `ensures` of `mul`.
    open spec fn obeys_mul_spec() -> bool {
        false
    }

    open spec fn mul_req(self, rhs: Integer) -> bool {
        <Integer as BinaryOperation<Multiplication, Commutative, Associative>>::op_req(self@, rhs@)
    }

    open spec fn mul_spec(self, rhs: Integer) -> Integer {
        arbitrary()
    }
}

} // verus!
