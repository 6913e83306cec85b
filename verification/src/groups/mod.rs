//! Groups: monoids with inverses.
use crate::monoid::{
    lemma_repeat_defined, lemma_repeat_is_member, repeat, repeat_req, repeat_spec,
    MonoidOperation,
};
use crate::ops::{
    Addition, Associative, BinaryOperation, Commutative, Element, Identity, Invertible,
    Multiplication, NonCommutative, OperationCommutativity, OperationKind,
};
use crate::primitives::{CyclicNumber, DihedralElement, Permutation, Word};
use core::marker::PhantomData;
use vstd::prelude::*;
use vstd::std_specs::ops::{AddSpecImpl, MulSpecImpl};

pub mod group_product;

pub use group_product::GroupProduct;

verus! {

/// The cyclic group of order `N`: Z/NZ under addition.
pub type Cyclic<const N: usize> = Group<CyclicNumber<N>, Addition, Commutative>;

/// The multiplicative group of the nonzero residues modulo a prime `N`.
pub type CMult<const N: usize> = Group<CyclicNumber<N>, Multiplication, Commutative>;

/// The symmetric group on `N` points.
pub type Symmetric<const N: usize> = Group<Permutation<N>, Multiplication, NonCommutative>;

/// The free group over the generators `T`.
pub type Free<T> = Group<Word<T>, Multiplication, NonCommutative>;

/// The dihedral group of order `2N`.
pub type Dihedral<const N: usize> = Group<DihedralElement<N>, Multiplication, NonCommutative>;

/// `x` to the power `n`: `n` copies of `x` combined for `n ≥ 0`, and `-n`
/// copies of the inverse of `x` for `n < 0`.
pub open spec fn pow_spec<E, K, C>(x: E::V, n: int) -> E::V where
    E: BinaryOperation<K, C, Associative> + Identity<K> + Invertible<K>,
    K: OperationKind,
    C: OperationCommutativity,
 {
    if n >= 0 {
        repeat_spec::<E, K, C>(x, n as nat)
    } else {
        repeat_spec::<E, K, C>(E::inv_spec(x), (-n) as nat)
    }
}

/// When the machine can compute `pow_spec(x, n)` step by step.
pub open spec fn pow_req<E, K, C>(x: E::V, n: int) -> bool where
    E: BinaryOperation<K, C, Associative> + Identity<K> + Invertible<K>,
    K: OperationKind,
    C: OperationCommutativity,
 {
    if n >= 0 {
        repeat_req::<E, K, C>(x, n as nat)
    } else {
        E::inv_req(x) && repeat_req::<E, K, C>(E::inv_spec(x), (-n) as nat)
    }
}

/// The laws of a group, proved by every type that claims to be one.
///
/// `invertible` picks the members that have an inverse: all of them in a
/// group proper, the nonzero ones in the multiplicative structure of a
/// field.
pub trait GroupOperation<K, C>: MonoidOperation<K, C> + Invertible<K> where
    K: OperationKind,
    C: OperationCommutativity,
 {
    /// The inverse law: x ∘ x⁻¹ = e = x⁻¹ ∘ x.
    proof fn lemma_inverse(x: Self::V)
        requires
            Self::invertible(x),
        ensures
            Self::member(x),
            Self::invertible(Self::inv_spec(x)),
            Self::eqv(Self::op_spec(x, Self::inv_spec(x)), Self::id_spec()),
            Self::eqv(Self::op_spec(Self::inv_spec(x), x), Self::id_spec()),
    ;

    /// The invertible members are closed under the operation.
    proof fn lemma_invertible_closed(a: Self::V, b: Self::V)
        requires
            Self::invertible(a),
            Self::invertible(b),
        ensures
            Self::invertible(Self::op_spec(a, b)),
    ;

    /// Being invertible, and the inverse, respect `eqv`.
    proof fn lemma_inverse_congruent(a: Self::V, b: Self::V)
        requires
            Self::invertible(a),
            Self::member(b),
            Self::eqv(a, b),
        ensures
            Self::invertible(b),
            Self::eqv(Self::inv_spec(a), Self::inv_spec(b)),
    ;

    /// `self` to the power `n`, by |n| applications of the operation.
    fn pow(&self, n: isize) -> (r: Self)
        requires
            pow_req::<Self, K, C>(self@, n as int),
        ensures
            r@ == pow_spec::<Self, K, C>(self@, n as int),
            Self::member(r@),
    {
        if n >= 0 {
            repeat::<Self, K, C>(self, n as usize)
        } else {
            let inverse = self.inv();
            let count: usize = (-(n + 1)) as usize + 1;
            repeat::<Self, K, C>(&inverse, count)
        }
    }
}

/// A group whose operation is commutative.
pub trait AbelianGroup<K: OperationKind>: GroupOperation<K, Commutative> {

}

impl<K: OperationKind, E: GroupOperation<K, Commutative>> AbelianGroup<K> for E {

}

/// In a group every power of an invertible member is a member.
pub proof fn lemma_pow_is_member<E, K, C>(x: E::V, n: int) where
    E: GroupOperation<K, C>,
    K: OperationKind,
    C: OperationCommutativity,

    requires
        E::invertible(x),
    ensures
        E::member(pow_spec::<E, K, C>(x, n)),
{
    E::lemma_inverse(x);
    E::lemma_inverse(E::inv_spec(x));
    if n >= 0 {
        lemma_repeat_is_member::<E, K, C>(x, n as nat);
    } else {
        lemma_repeat_is_member::<E, K, C>(E::inv_spec(x), (-n) as nat);
    }
}

/// Where the machine can combine any two members and invert every
/// invertible one, it can compute every power of an invertible member.
pub proof fn lemma_pow_defined<E, K, C>(x: E::V, n: int) where
    E: GroupOperation<K, C>,
    K: OperationKind,
    C: OperationCommutativity,

    requires
        E::id_req(),
        E::invertible(x),
        E::inv_req(x),
        forall|a: E::V, b: E::V| E::member(a) && E::member(b) ==> #[trigger] E::op_req(a, b),
    ensures
        pow_req::<E, K, C>(x, n),
{
    E::lemma_inverse(x);
    E::lemma_inverse(E::inv_spec(x));
    if n >= 0 {
        lemma_repeat_defined::<E, K, C>(x, n as nat);
    } else {
        lemma_repeat_defined::<E, K, C>(E::inv_spec(x), (-n) as nat);
    }
}

/// Inverses are unique: a member that combines with `x` to the neutral
/// element is the inverse of `x`.
pub proof fn lemma_inverse_unique<E, K, C>(x: E::V, y: E::V) where
    E: GroupOperation<K, C>,
    K: OperationKind,
    C: OperationCommutativity,

    requires
        E::invertible(x),
        E::member(y),
        E::eqv(E::op_spec(x, y), E::id_spec()),
    ensures
        E::eqv(y, E::inv_spec(x)),
{
    let e = E::id_spec();
    let ix = E::inv_spec(x);
    E::lemma_inverse(x);
    E::lemma_inverse(ix);
    E::lemma_identity(y);
    E::lemma_identity(ix);
    let ey = E::op_spec(e, y);
    let ixx = E::op_spec(ix, x);
    let xy = E::op_spec(x, y);
    let t1 = E::op_spec(ixx, y);
    let t2 = E::op_spec(ix, xy);
    let t3 = E::op_spec(ix, e);
    E::lemma_closed(e, y);
    E::lemma_closed(ix, x);
    E::lemma_closed(x, y);
    E::lemma_closed(ixx, y);
    E::lemma_closed(ix, xy);
    E::lemma_closed(ix, e);
    // y = e ∘ y
    E::lemma_eqv_symmetric(ey, y);
    // e ∘ y = (x⁻¹ ∘ x) ∘ y
    E::lemma_eqv_symmetric(ixx, e);
    E::lemma_eqv_reflexive(y);
    E::lemma_congruent(e, ixx, y, y);
    // (x⁻¹ ∘ x) ∘ y = x⁻¹ ∘ (x ∘ y)
    E::lemma_associative(ix, x, y);
    // x⁻¹ ∘ (x ∘ y) = x⁻¹ ∘ e
    E::lemma_eqv_reflexive(ix);
    E::lemma_congruent(ix, ix, xy, e);
    // x⁻¹ ∘ e = x⁻¹
    E::lemma_eqv_transitive(y, ey, t1);
    E::lemma_eqv_transitive(y, t1, t2);
    E::lemma_eqv_transitive(y, t2, t3);
    E::lemma_eqv_transitive(y, t3, ix);
}

/// The inverse of a composition: (a ∘ b)⁻¹ = b⁻¹ ∘ a⁻¹.
pub proof fn lemma_inverse_of_composition<E, K, C>(a: E::V, b: E::V) where
    E: GroupOperation<K, C>,
    K: OperationKind,
    C: OperationCommutativity,

    requires
        E::invertible(a),
        E::invertible(b),
    ensures
        E::eqv(
            E::inv_spec(E::op_spec(a, b)),
            E::op_spec(E::inv_spec(b), E::inv_spec(a)),
        ),
{
    let e = E::id_spec();
    let ia = E::inv_spec(a);
    let ib = E::inv_spec(b);
    let ab = E::op_spec(a, b);
    let y = E::op_spec(ib, ia);
    E::lemma_inverse(a);
    E::lemma_inverse(b);
    E::lemma_inverse(ia);
    E::lemma_inverse(ib);
    E::lemma_invertible_closed(a, b);
    E::lemma_inverse(ab);
    E::lemma_inverse(E::inv_spec(ab));
    E::lemma_identity(ia);
    E::lemma_closed(a, b);
    E::lemma_closed(ib, ia);
    // (a ∘ b) ∘ (b⁻¹ ∘ a⁻¹) = a ∘ (b ∘ (b⁻¹ ∘ a⁻¹))
    let t0 = E::op_spec(ab, y);
    let by = E::op_spec(b, y);
    let t1 = E::op_spec(a, by);
    E::lemma_closed(ab, y);
    E::lemma_closed(b, y);
    E::lemma_closed(a, by);
    E::lemma_associative(a, b, y);
    // b ∘ (b⁻¹ ∘ a⁻¹) = (b ∘ b⁻¹) ∘ a⁻¹ = e ∘ a⁻¹ = a⁻¹
    let bib = E::op_spec(b, ib);
    let u1 = E::op_spec(bib, ia);
    let u2 = E::op_spec(e, ia);
    E::lemma_closed(b, ib);
    E::lemma_closed(bib, ia);
    E::lemma_closed(e, ia);
    E::lemma_associative(b, ib, ia);
    E::lemma_eqv_symmetric(u1, by);
    E::lemma_eqv_reflexive(ia);
    E::lemma_congruent(bib, e, ia, ia);
    E::lemma_eqv_transitive(by, u1, u2);
    E::lemma_eqv_transitive(by, u2, ia);
    // a ∘ (b ∘ (b⁻¹ ∘ a⁻¹)) = a ∘ a⁻¹ = e
    let aia = E::op_spec(a, ia);
    E::lemma_closed(a, ia);
    E::lemma_eqv_reflexive(a);
    E::lemma_congruent(a, a, by, ia);
    E::lemma_eqv_transitive(t0, t1, aia);
    E::lemma_eqv_transitive(t0, aia, e);
    lemma_inverse_unique::<E, K, C>(ab, y);
    E::lemma_eqv_symmetric(y, E::inv_spec(ab));
}

/// A group element: a wrapper that gives an element type with the
/// capabilities of a group its operations under one name.
#[derive(Debug, PartialEq, Eq)]
pub struct Group<E, K, C> where
    E: GroupOperation<K, C>,
    K: OperationKind,
    C: OperationCommutativity,
 {
    e: E,
    _kind: PhantomData<K>,
    _commutativity: PhantomData<C>,
}

impl<E, K, C> Clone for Group<E, K, C> where
    E: GroupOperation<K, C> + Copy,
    K: OperationKind,
    C: OperationCommutativity,
 {
    fn clone(&self) -> (r: Self)
        ensures
            r == *self,
    {
        *self
    }
}

impl<E, K, C> Copy for Group<E, K, C> where
    E: GroupOperation<K, C> + Copy,
    K: OperationKind,
    C: OperationCommutativity,
 {

}

impl<E, K, C> View for Group<E, K, C> where
    E: GroupOperation<K, C>,
    K: OperationKind,
    C: OperationCommutativity,
 {
    type V = E::V;

    closed spec fn view(&self) -> E::V {
        self.e@
    }
}

impl<E, K, C> Group<E, K, C> where
    E: GroupOperation<K, C>,
    K: OperationKind,
    C: OperationCommutativity,
 {
    pub fn new(e: E) -> (r: Self)
        ensures
            r@ == e@,
    {
        Self { e, _kind: PhantomData, _commutativity: PhantomData }
    }

    pub fn inv(&self) -> (r: Self)
        requires
            E::inv_req(self@),
        ensures
            r@ == E::inv_spec(self@),
            E::member(r@),
    {
        Self::new(self.e.inv())
    }

    pub fn op(&self, rhs: &Self) -> (r: Self)
        requires
            E::op_req(self@, rhs@),
        ensures
            r@ == E::op_spec(self@, rhs@),
            E::member(r@),
    {
        Self::new(self.e.op(&rhs.e))
    }

    pub fn id() -> (r: Self)
        requires
            E::id_req(),
        ensures
            r@ == E::id_spec(),
            E::member(r@),
    {
        Self::new(E::id())
    }

    /// `self` to the power `n`; see `pow_spec`.
    pub fn pow(&self, n: isize) -> (r: Self)
        requires
            pow_req::<E, K, C>(self@, n as int),
        ensures
            r@ == pow_spec::<E, K, C>(self@, n as int),
            E::member(r@),
    {
        Self::new(self.e.pow(n))
    }
}

impl<E, K, C> Element for Group<E, K, C> where
    E: GroupOperation<K, C>,
    K: OperationKind,
    C: OperationCommutativity,
 {
    open spec fn member(v: E::V) -> bool {
        E::member(v)
    }

    open spec fn eqv(a: E::V, b: E::V) -> bool {
        E::eqv(a, b)
    }

    open spec fn eq_req(a: E::V, b: E::V) -> bool {
        E::eq_req(a, b)
    }

    fn equals(&self, other: &Self) -> (r: bool) {
        self.e.equals(&other.e)
    }
}

impl<E, K, C> BinaryOperation<K, C, Associative> for Group<E, K, C> where
    E: GroupOperation<K, C>,
    K: OperationKind,
    C: OperationCommutativity,
 {
    open spec fn op_spec(a: E::V, b: E::V) -> E::V {
        E::op_spec(a, b)
    }

    open spec fn op_req(a: E::V, b: E::V) -> bool {
        E::op_req(a, b)
    }

    fn op(&self, rhs: &Self) -> (r: Self) {
        Self::new(E::op(&self.e, &rhs.e))
    }
}

impl<E, K, C> Identity<K> for Group<E, K, C> where
    E: GroupOperation<K, C>,
    K: OperationKind,
    C: OperationCommutativity,
 {
    open spec fn id_spec() -> E::V {
        E::id_spec()
    }

    open spec fn id_req() -> bool {
        E::id_req()
    }

    fn id() -> (r: Self) {
        Self::new(E::id())
    }
}

impl<E, K, C> Invertible<K> for Group<E, K, C> where
    E: GroupOperation<K, C>,
    K: OperationKind,
    C: OperationCommutativity,
 {
    open spec fn inv_spec(a: E::V) -> E::V {
        E::inv_spec(a)
    }

    open spec fn invertible(a: E::V) -> bool {
        E::invertible(a)
    }

    open spec fn inv_req(a: E::V) -> bool {
        E::inv_req(a)
    }

    fn inv(&self) -> (r: Self) {
        Self::new(E::inv(&self.e))
    }
}

impl<E, K, C> MonoidOperation<K, C> for Group<E, K, C> where
    E: GroupOperation<K, C>,
    K: OperationKind,
    C: OperationCommutativity,
 {
    proof fn lemma_eqv_reflexive(a: E::V) {
        E::lemma_eqv_reflexive(a);
    }

    proof fn lemma_eqv_symmetric(a: E::V, b: E::V) {
        E::lemma_eqv_symmetric(a, b);
    }

    proof fn lemma_eqv_transitive(a: E::V, b: E::V, c: E::V) {
        E::lemma_eqv_transitive(a, b, c);
    }

    proof fn lemma_closed(a: E::V, b: E::V) {
        E::lemma_closed(a, b);
    }

    proof fn lemma_congruent(a1: E::V, a2: E::V, b1: E::V, b2: E::V) {
        E::lemma_congruent(a1, a2, b1, b2);
    }

    proof fn lemma_associative(a: E::V, b: E::V, c: E::V) {
        E::lemma_associative(a, b, c);
    }

    proof fn lemma_commutative(a: E::V, b: E::V) {
        E::lemma_commutative(a, b);
    }

    proof fn lemma_identity(x: E::V) {
        E::lemma_identity(x);
    }
}

impl<E, K, C> GroupOperation<K, C> for Group<E, K, C> where
    E: GroupOperation<K, C>,
    K: OperationKind,
    C: OperationCommutativity,
 {
    proof fn lemma_inverse(x: E::V) {
        E::lemma_inverse(x);
    }

    proof fn lemma_invertible_closed(a: E::V, b: E::V) {
        E::lemma_invertible_closed(a, b);
    }

    proof fn lemma_inverse_congruent(a: E::V, b: E::V) {
        E::lemma_inverse_congruent(a, b);
    }
}

impl<E> core::ops::Add for Group<E, Addition, Commutative> where
    E: GroupOperation<Addition, Commutative>,
 {
    type Output = Group<E, Addition, Commutative>;

    /// The sum in an additive group.
    fn add(self, rhs: Group<E, Addition, Commutative>) -> (r: Group<E, Addition, Commutative>)
        ensures
            r@ == E::op_spec(self@, rhs@),
            E::member(r@),
    {
        self.op(&rhs)
    }
}

impl<E> AddSpecImpl for Group<E, Addition, Commutative> where
    E: GroupOperation<Addition, Commutative>,
 {
    /// The result is stated on models, by the `ensures` of `add`.
    open spec fn obeys_add_spec() -> bool {
        false
    }

    open spec fn add_req(self, rhs: Group<E, Addition, Commutative>) -> bool {
        E::op_req(self@, rhs@)
    }

    open spec fn add_spec(self, rhs: Group<E, Addition, Commutative>) -> Group<E, Addition, Commutative> {
        arbitrary()
    }
}

impl<E> core::ops::Mul<isize> for Group<E, Addition, Commutative> where
    E: GroupOperation<Addition, Commutative>,
 {
    type Output = Group<E, Addition, Commutative>;

    /// The multiple of an element of an additive group: `rhs` copies of it
    /// added up.
    fn mul(self, rhs: isize) -> (r: Group<E, Addition, Commutative>)
        ensures
            r@ == pow_spec::<E, Addition, Commutative>(self@, rhs as int),
            E::member(r@),
    {
        self.pow(rhs)
    }
}

impl<E> MulSpecImpl<isize> for Group<E, Addition, Commutative> where
    E: GroupOperation<Addition, Commutative>,
 {
    /// The result is stated on models, by the `ensures` of `mul`.
    open spec fn obeys_mul_spec() -> bool {
        false
    }

    open spec fn mul_req(self, rhs: isize) -> bool {
        pow_req::<E, Addition, Commutative>(self@, rhs as int)
    }

    open spec fn mul_spec(self, rhs: isize) -> Group<E, Addition, Commutative> {
        arbitrary()
    }
}

impl<E, C> core::ops::Mul for Group<E, Multiplication, C> where
    E: GroupOperation<Multiplication, C>,
    C: OperationCommutativity,
 {
    type Output = Group<E, Multiplication, C>;

    /// The product in a multiplicative group.
    fn mul(self, rhs: Group<E, Multiplication, C>) -> (r: Group<E, Multiplication, C>)
        ensures
            r@ == E::op_spec(self@, rhs@),
            E::member(r@),
    {
        self.op(&rhs)
    }
}

impl<E, C> MulSpecImpl for Group<E, Multiplication, C> where
    E: GroupOperation<Multiplication, C>,
    C: OperationCommutativity,
 {
    /// The result is stated on models, by the `ensures` of `mul`.
    open spec fn obeys_mul_spec() -> bool {
        false
    }

    open spec fn mul_req(self, rhs: Group<E, Multiplication, C>) -> bool {
        E::op_req(self@, rhs@)
    }

    open spec fn mul_spec(self, rhs: Group<E, Multiplication, C>) -> Group<E, Multiplication, C> {
        arbitrary()
    }
}

/// (a ∘ b)⁻¹ = b⁻¹ ∘ a⁻¹, for these two.
pub open spec fn inverse_of_composition_at<G, K, C>(a: G::V, b: G::V) -> bool where
    G: GroupOperation<K, C>,
    K: OperationKind,
    C: OperationCommutativity,
 {
    G::eqv(G::inv_spec(G::op_spec(a, b)), G::op_spec(G::inv_spec(b), G::inv_spec(a)))
}

/// The machine can compute and compare both sides of
/// `inverse_of_composition_at`.
pub open spec fn inverse_of_composition_checkable<G, K, C>(a: G::V, b: G::V) -> bool where
    G: GroupOperation<K, C>,
    K: OperationKind,
    C: OperationCommutativity,
 {
    &&& G::op_req(a, b)
    &&& G::inv_req(G::op_spec(a, b))
    &&& G::inv_req(a)
    &&& G::inv_req(b)
    &&& G::op_req(G::inv_spec(b), G::inv_spec(a))
    &&& G::eq_req(G::inv_spec(G::op_spec(a, b)), G::op_spec(G::inv_spec(b), G::inv_spec(a)))
}

/// a ∘ a⁻¹ = e = a⁻¹ ∘ a, for this one.
pub open spec fn inverse_at<G, K, C>(a: G::V) -> bool where
    G: GroupOperation<K, C>,
    K: OperationKind,
    C: OperationCommutativity,
 {
    &&& G::eqv(G::op_spec(a, G::inv_spec(a)), G::id_spec())
    &&& G::eqv(G::op_spec(G::inv_spec(a), a), G::id_spec())
}

/// The machine can compute and compare both sides of `inverse_at`.
pub open spec fn inverse_checkable<G, K, C>(a: G::V) -> bool where
    G: GroupOperation<K, C>,
    K: OperationKind,
    C: OperationCommutativity,
 {
    &&& G::id_req()
    &&& G::inv_req(a)
    &&& G::op_req(a, G::inv_spec(a))
    &&& G::op_req(G::inv_spec(a), a)
    &&& G::eq_req(G::op_spec(a, G::inv_spec(a)), G::id_spec())
    &&& G::eq_req(G::op_spec(G::inv_spec(a), a), G::id_spec())
}

/// What `test_group_axioms` checks holds of all invertible members.
pub proof fn lemma_group_axioms_hold<G, K, C>(a: G::V, b: G::V) where
    G: GroupOperation<K, C>,
    K: OperationKind,
    C: OperationCommutativity,

    requires
        G::invertible(a),
        G::invertible(b),
    ensures
        inverse_of_composition_at::<G, K, C>(a, b),
        inverse_of_composition_at::<G, K, C>(b, a),
        inverse_at::<G, K, C>(a),
{
    lemma_inverse_of_composition::<G, K, C>(a, b);
    lemma_inverse_of_composition::<G, K, C>(b, a);
    G::lemma_inverse(a);
}

/// Whether (a ∘ b)⁻¹ and b⁻¹ ∘ a⁻¹ come out the same.
fn check_inverse_of_composition<G, K, C>(a: &G, b: &G) -> (r: bool) where
    G: GroupOperation<K, C>,
    K: OperationKind,
    C: OperationCommutativity,

    requires
        inverse_of_composition_checkable::<G, K, C>(a@, b@),
    ensures
        r == inverse_of_composition_at::<G, K, C>(a@, b@),
{
    let left = a.op(b).inv();
    let right = b.inv().op(&a.inv());
    left.equals(&right)
}

/// Checks the group axioms on a sample: (a ∘ b)⁻¹ = b⁻¹ ∘ a⁻¹ for every
/// two neighbours of `elems`, in both orders, and a ∘ a⁻¹ = e = a⁻¹ ∘ a for
/// every element. A sample of invertible members passes.
pub fn test_group_axioms<G, K, C>(elems: &[G]) -> (r: bool) where
    G: GroupOperation<K, C>,
    K: OperationKind,
    C: OperationCommutativity,

    requires
        forall|i: int|
            0 <= i && i + 1 < elems@.len() ==> inverse_of_composition_checkable::<G, K, C>(
                (#[trigger] elems@[i])@,
                elems@[i + 1]@,
            ) && inverse_of_composition_checkable::<G, K, C>(elems@[i + 1]@, elems@[i]@),
        forall|i: int|
            0 <= i < elems@.len() ==> inverse_checkable::<G, K, C>((#[trigger] elems@[i])@),
    ensures
        r == ((forall|i: int|
            0 <= i && i + 1 < elems@.len() ==> inverse_of_composition_at::<G, K, C>(
                (#[trigger] elems@[i])@,
                elems@[i + 1]@,
            ) && inverse_of_composition_at::<G, K, C>(elems@[i + 1]@, elems@[i]@)) && (forall|
            i: int,
        | 0 <= i < elems@.len() ==> inverse_at::<G, K, C>((#[trigger] elems@[i])@))),
        (forall|i: int| 0 <= i < elems@.len() ==> G::invertible((#[trigger] elems@[i])@)) ==> r,
{
    let n = elems.len();
    let mut i: usize = 0;
    while i < n && i + 1 < n
        invariant
            n == elems@.len(),
            i <= n,
            forall|j: int|
                0 <= j && j + 1 < elems@.len() ==> inverse_of_composition_checkable::<G, K, C>(
                    (#[trigger] elems@[j])@,
                    elems@[j + 1]@,
                ) && inverse_of_composition_checkable::<G, K, C>(elems@[j + 1]@, elems@[j]@),
            forall|j: int|
                0 <= j < i ==> inverse_of_composition_at::<G, K, C>(
                    (#[trigger] elems@[j])@,
                    elems@[j + 1]@,
                ) && inverse_of_composition_at::<G, K, C>(elems@[j + 1]@, elems@[j]@),
        decreases n - i,
    {
        let a = &elems[i];
        let b = &elems[i + 1];
        assert(inverse_of_composition_checkable::<G, K, C>(elems@[i as int]@, b@));
        if !check_inverse_of_composition::<G, K, C>(a, b) || !check_inverse_of_composition::<
            G,
            K,
            C,
        >(b, a) {
            assert(!(inverse_of_composition_at::<G, K, C>(elems@[i as int]@, elems@[i + 1]@)
                && inverse_of_composition_at::<G, K, C>(elems@[i + 1]@, elems@[i as int]@)));
            proof {
                if G::invertible(elems@[i as int]@) && G::invertible(elems@[i + 1]@) {
                    lemma_group_axioms_hold::<G, K, C>(elems@[i as int]@, elems@[i + 1]@);
                }
            }
            return false;
        }
        i = i + 1;
    }
    let mut k: usize = 0;
    while k < n
        invariant
            n == elems@.len(),
            k <= n,
            forall|j: int|
                0 <= j < elems@.len() ==> inverse_checkable::<G, K, C>((#[trigger] elems@[j])@),
            forall|j: int| 0 <= j < k ==> inverse_at::<G, K, C>((#[trigger] elems@[j])@),
        decreases n - k,
    {
        let a = &elems[k];
        assert(inverse_checkable::<G, K, C>(elems@[k as int]@));
        let inverse = a.inv();
        let e = G::id();
        if !a.op(&inverse).equals(&e) || !inverse.op(a).equals(&e) {
            assert(!inverse_at::<G, K, C>(elems@[k as int]@));
            proof {
                if G::invertible(elems@[k as int]@) {
                    G::lemma_inverse(elems@[k as int]@);
                }
            }
            return false;
        }
        k = k + 1;
    }
    true
}

} // verus!
