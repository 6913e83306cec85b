//! Monoids: an associative operation with a neutral element.
use crate::ops::{
    Addition, Associative, BinaryOperation, Commutative, Element, Identity, Multiplication,
    OperationCommutativity, OperationKind,
};
use core::marker::PhantomData;
use vstd::prelude::*;
use vstd::std_specs::ops::{AddSpecImpl, MulSpecImpl};

verus! {

/// The laws of a monoid, proved by every type that claims to be one.
///
/// The laws speak of models. `eqv` is an equivalence on the carrier set,
/// the operation is closed on it and respects `eqv`, it is associative,
/// commutative where `C` claims so, and `id_spec` is neutral.
pub trait MonoidOperation<K, C>: BinaryOperation<K, C, Associative> + Identity<K> where
    K: OperationKind,
    C: OperationCommutativity,
 {
    proof fn lemma_eqv_reflexive(a: Self::V)
        requires
            Self::member(a),
        ensures
            Self::eqv(a, a),
    ;

    proof fn lemma_eqv_symmetric(a: Self::V, b: Self::V)
        requires
            Self::member(a),
            Self::member(b),
            Self::eqv(a, b),
        ensures
            Self::eqv(b, a),
    ;

    proof fn lemma_eqv_transitive(a: Self::V, b: Self::V, c: Self::V)
        requires
            Self::member(a),
            Self::member(b),
            Self::member(c),
            Self::eqv(a, b),
            Self::eqv(b, c),
        ensures
            Self::eqv(a, c),
    ;

    proof fn lemma_closed(a: Self::V, b: Self::V)
        requires
            Self::member(a),
            Self::member(b),
        ensures
            Self::member(Self::op_spec(a, b)),
    ;

    proof fn lemma_congruent(a1: Self::V, a2: Self::V, b1: Self::V, b2: Self::V)
        requires
            Self::member(a1),
            Self::member(a2),
            Self::member(b1),
            Self::member(b2),
            Self::eqv(a1, a2),
            Self::eqv(b1, b2),
        ensures
            Self::eqv(Self::op_spec(a1, b1), Self::op_spec(a2, b2)),
    ;

    /// Associativity: (a ∘ b) ∘ c = a ∘ (b ∘ c).
    proof fn lemma_associative(a: Self::V, b: Self::V, c: Self::V)
        requires
            Self::member(a),
            Self::member(b),
            Self::member(c),
        ensures
            Self::eqv(
                Self::op_spec(Self::op_spec(a, b), c),
                Self::op_spec(a, Self::op_spec(b, c)),
            ),
    ;

    /// Commutativity, where it is claimed: a ∘ b = b ∘ a.
    proof fn lemma_commutative(a: Self::V, b: Self::V)
        requires
            Self::member(a),
            Self::member(b),
        ensures
            C::claimed() ==> Self::eqv(Self::op_spec(a, b), Self::op_spec(b, a)),
    ;

    /// The identity law: e ∘ x = x = x ∘ e.
    proof fn lemma_identity(x: Self::V)
        requires
            Self::member(x),
        ensures
            Self::member(Self::id_spec()),
            Self::eqv(Self::op_spec(Self::id_spec(), x), x),
            Self::eqv(Self::op_spec(x, Self::id_spec()), x),
    ;
}

/// `x` combined with itself `n` times, starting from the neutral element:
/// e ∘ x ∘ x ∘ … ∘ x.
pub open spec fn repeat_spec<E, K, C>(x: E::V, n: nat) -> E::V where
    E: BinaryOperation<K, C, Associative> + Identity<K>,
    K: OperationKind,
    C: OperationCommutativity,

    decreases n,
{
    if n == 0 {
        E::id_spec()
    } else {
        E::op_spec(repeat_spec::<E, K, C>(x, (n - 1) as nat), x)
    }
}

/// When the machine can compute `repeat_spec(x, n)` step by step.
pub open spec fn repeat_req<E, K, C>(x: E::V, n: nat) -> bool where
    E: BinaryOperation<K, C, Associative> + Identity<K>,
    K: OperationKind,
    C: OperationCommutativity,
 {
    &&& E::id_req()
    &&& E::member(x)
    &&& forall|i: nat| i < n ==> E::op_req(#[trigger] repeat_spec::<E, K, C>(x, i), x)
}

/// In a monoid every power of a member is a member.
pub proof fn lemma_repeat_is_member<E, K, C>(x: E::V, n: nat) where
    E: MonoidOperation<K, C>,
    K: OperationKind,
    C: OperationCommutativity,

    requires
        E::member(x),
    ensures
        E::member(repeat_spec::<E, K, C>(x, n)),
    decreases n,
{
    if n == 0 {
        E::lemma_identity(x);
    } else {
        lemma_repeat_is_member::<E, K, C>(x, (n - 1) as nat);
        E::lemma_closed(repeat_spec::<E, K, C>(x, (n - 1) as nat), x);
    }
}

/// Where the machine can combine any two members, it can compute every
/// power of a member.
pub proof fn lemma_repeat_defined<E, K, C>(x: E::V, n: nat) where
    E: MonoidOperation<K, C>,
    K: OperationKind,
    C: OperationCommutativity,

    requires
        E::id_req(),
        E::member(x),
        forall|a: E::V, b: E::V| E::member(a) && E::member(b) ==> #[trigger] E::op_req(a, b),
    ensures
        repeat_req::<E, K, C>(x, n),
{
    assert forall|i: nat| i < n implies E::op_req(#[trigger] repeat_spec::<E, K, C>(x, i), x) by {
        lemma_repeat_is_member::<E, K, C>(x, i);
    }
}

/// Combines `x` with itself `n` times, by `n` applications of the operation.
pub fn repeat<E, K, C>(x: &E, n: usize) -> (r: E) where
    E: BinaryOperation<K, C, Associative> + Identity<K>,
    K: OperationKind,
    C: OperationCommutativity,

    requires
        repeat_req::<E, K, C>(x@, n as nat),
    ensures
        r@ == repeat_spec::<E, K, C>(x@, n as nat),
        E::member(r@),
{
    let mut acc = E::id();
    let mut i: usize = 0;
    while i < n
        invariant
            i <= n,
            repeat_req::<E, K, C>(x@, n as nat),
            acc@ == repeat_spec::<E, K, C>(x@, i as nat),
            E::member(acc@),
        decreases n - i,
    {
        acc = acc.op(x);
        i = i + 1;
    }
    acc
}

/// A monoid element: a wrapper that gives an element type with the
/// capabilities of a monoid its operations under one name.
#[derive(Debug, PartialEq, Eq)]
pub struct Monoid<E, K, C> where
    E: MonoidOperation<K, C>,
    K: OperationKind,
    C: OperationCommutativity,
 {
    e: E,
    _kind: PhantomData<K>,
    _commutativity: PhantomData<C>,
}

impl<E, K, C> Clone for Monoid<E, K, C> where
    E: MonoidOperation<K, C> + Copy,
    K: OperationKind,
    C: OperationCommutativity,
 {
    fn clone(&self) -> (r: Self)
        ensures
            r == *self,
    {
        *self
    }
}

impl<E, K, C> Copy for Monoid<E, K, C> where
    E: MonoidOperation<K, C> + Copy,
    K: OperationKind,
    C: OperationCommutativity,
 {

}

impl<E, K, C> View for Monoid<E, K, C> where
    E: MonoidOperation<K, C>,
    K: OperationKind,
    C: OperationCommutativity,
 {
    type V = E::V;

    closed spec fn view(&self) -> E::V {
        self.e@
    }
}

impl<E, K, C> Monoid<E, K, C> where
    E: MonoidOperation<K, C>,
    K: OperationKind,
    C: OperationCommutativity,
 {
    pub fn new(e: E) -> (r: Self)
        ensures
            r@ == e@,
    {
        Self { e, _kind: PhantomData, _commutativity: PhantomData }
    }

    pub fn op(&self, rhs: &Self) -> (r: Self)
        requires
            E::op_req(self@, rhs@),
        ensures
            r@ == E::op_spec(self@, rhs@),
            E::member(r@),
    {
        Self::new(self.e.op(&rhs.e))
    }

    pub fn id() -> (r: Self)
        requires
            E::id_req(),
        ensures
            r@ == E::id_spec(),
            E::member(r@),
    {
        Self::new(E::id())
    }

    /// `self` combined with itself `n` times; the neutral element for 0.
    pub fn pow(&self, n: usize) -> (r: Self)
        requires
            repeat_req::<E, K, C>(self@, n as nat),
        ensures
            r@ == repeat_spec::<E, K, C>(self@, n as nat),
            E::member(r@),
    {
        Self::new(repeat::<E, K, C>(&self.e, n))
    }
}

impl<E, K, C> Element for Monoid<E, K, C> where
    E: MonoidOperation<K, C>,
    K: OperationKind,
    C: OperationCommutativity,
 {
    open spec fn member(v: E::V) -> bool {
        E::member(v)
    }

    open spec fn eqv(a: E::V, b: E::V) -> bool {
        E::eqv(a, b)
    }

    open spec fn eq_req(a: E::V, b: E::V) -> bool {
        E::eq_req(a, b)
    }

    fn equals(&self, other: &Self) -> (r: bool) {
        self.e.equals(&other.e)
    }
}

impl<E, K, C> BinaryOperation<K, C, Associative> for Monoid<E, K, C> where
    E: MonoidOperation<K, C>,
    K: OperationKind,
    C: OperationCommutativity,
 {
    open spec fn op_spec(a: E::V, b: E::V) -> E::V {
        E::op_spec(a, b)
    }

    open spec fn op_req(a: E::V, b: E::V) -> bool {
        E::op_req(a, b)
    }

    fn op(&self, rhs: &Self) -> (r: Self) {
        Self::new(E::op(&self.e, &rhs.e))
    }
}

impl<E, K, C> Identity<K> for Monoid<E, K, C> where
    E: MonoidOperation<K, C>,
    K: OperationKind,
    C: OperationCommutativity,
 {
    open spec fn id_spec() -> E::V {
        E::id_spec()
    }

    open spec fn id_req() -> bool {
        E::id_req()
    }

    fn id() -> (r: Self) {
        Self::new(E::id())
    }
}

impl<E, K, C> MonoidOperation<K, C> for Monoid<E, K, C> where
    E: MonoidOperation<K, C>,
    K: OperationKind,
    C: OperationCommutativity,
 {
    proof fn lemma_eqv_reflexive(a: E::V) {
        E::lemma_eqv_reflexive(a);
    }

    proof fn lemma_eqv_symmetric(a: E::V, b: E::V) {
        E::lemma_eqv_symmetric(a, b);
    }

    proof fn lemma_eqv_transitive(a: E::V, b: E::V, c: E::V) {
        E::lemma_eqv_transitive(a, b, c);
    }

    proof fn lemma_closed(a: E::V, b: E::V) {
        E::lemma_closed(a, b);
    }

    proof fn lemma_congruent(a1: E::V, a2: E::V, b1: E::V, b2: E::V) {
        E::lemma_congruent(a1, a2, b1, b2);
    }

    proof fn lemma_associative(a: E::V, b: E::V, c: E::V) {
        E::lemma_associative(a, b, c);
    }

    proof fn lemma_commutative(a: E::V, b: E::V) {
        E::lemma_commutative(a, b);
    }

    proof fn lemma_identity(x: E::V) {
        E::lemma_identity(x);
    }
}

impl<E> core::ops::Add for Monoid<E, Addition, Commutative> where
    E: MonoidOperation<Addition, Commutative>,
 {
    type Output = Monoid<E, Addition, Commutative>;

    /// The sum in an additive monoid.
    fn add(self, rhs: Monoid<E, Addition, Commutative>) -> (r: Monoid<E, Addition, Commutative>)
        ensures
            r@ == E::op_spec(self@, rhs@),
            E::member(r@),
    {
        self.op(&rhs)
    }
}

impl<E> AddSpecImpl for Monoid<E, Addition, Commutative> where
    E: MonoidOperation<Addition, Commutative>,
 {
    /// The result is stated on models, by the `ensures` of `add`.
    open spec fn obeys_add_spec() -> bool {
        false
    }

    open spec fn add_req(self, rhs: Monoid<E, Addition, Commutative>) -> bool {
        E::op_req(self@, rhs@)
    }

    open spec fn add_spec(self, rhs: Monoid<E, Addition, Commutative>) -> Monoid<E, Addition, Commutative> {
        arbitrary()
    }
}

impl<E, C> core::ops::Mul for Monoid<E, Multiplication, C> where
    E: MonoidOperation<Multiplication, C>,
    C: OperationCommutativity,
 {
    type Output = Monoid<E, Multiplication, C>;

    /// The product in a multiplicative monoid.
    fn mul(self, rhs: Monoid<E, Multiplication, C>) -> (r: Monoid<E, Multiplication, C>)
        ensures
            r@ == E::op_spec(self@, rhs@),
            E::member(r@),
    {
        self.op(&rhs)
    }
}

impl<E, C> MulSpecImpl for Monoid<E, Multiplication, C> where
    E: MonoidOperation<Multiplication, C>,
    C: OperationCommutativity,
 {
    /// The result is stated on models, by the `ensures` of `mul`.
    open spec fn obeys_mul_spec() -> bool {
        false
    }

    open spec fn mul_req(self, rhs: Monoid<E, Multiplication, C>) -> bool {
        E::op_req(self@, rhs@)
    }

    open spec fn mul_spec(self, rhs: Monoid<E, Multiplication, C>) -> Monoid<E, Multiplication, C> {
        arbitrary()
    }
}

} // verus!
