//! The direct product of two groups.
use crate::groups::{lemma_inverse_of_composition, GroupOperation};
use crate::ops::{Element, OperationCommutativity, OperationKind};
use core::marker::PhantomData;
use vstd::prelude::*;

verus! {

/// An element of the direct product of two groups: a pair, one component
/// from each group. The groups may differ in kind; the components never
/// meet.
///
/// The model is the pair of the components' models.
#[derive(Debug, PartialEq, Eq)]
pub struct GroupProduct<A, B, KA, KB, CA, CB> where
    A: GroupOperation<KA, CA>,
    B: GroupOperation<KB, CB>,
    KA: OperationKind,
    KB: OperationKind,
    CA: OperationCommutativity,
    CB: OperationCommutativity,
 {
    e: (A, B),
    _kind_a: PhantomData<KA>,
    _kind_b: PhantomData<KB>,
    _commutativity_a: PhantomData<CA>,
    _commutativity_b: PhantomData<CB>,
}

impl<A, B, KA, KB, CA, CB> Clone for GroupProduct<A, B, KA, KB, CA, CB> where
    A: GroupOperation<KA, CA> + Copy,
    B: GroupOperation<KB, CB> + Copy,
    KA: OperationKind,
    KB: OperationKind,
    CA: OperationCommutativity,
    CB: OperationCommutativity,
 {
    fn clone(&self) -> (r: Self)
        ensures
            r == *self,
    {
        *self
    }
}

impl<A, B, KA, KB, CA, CB> Copy for GroupProduct<A, B, KA, KB, CA, CB> where
    A: GroupOperation<KA, CA> + Copy,
    B: GroupOperation<KB, CB> + Copy,
    KA: OperationKind,
    KB: OperationKind,
    CA: OperationCommutativity,
    CB: OperationCommutativity,
 {

}

impl<A, B, KA, KB, CA, CB> View for GroupProduct<A, B, KA, KB, CA, CB> where
    A: GroupOperation<KA, CA>,
    B: GroupOperation<KB, CB>,
    KA: OperationKind,
    KB: OperationKind,
    CA: OperationCommutativity,
    CB: OperationCommutativity,
 {
    type V = (A::V, B::V);

    closed spec fn view(&self) -> (A::V, B::V) {
        (self.e.0@, self.e.1@)
    }
}

/// The composition of pairs, component by component.
pub open spec fn product_op<A, B, KA, KB, CA, CB>(x: (A::V, B::V), y: (A::V, B::V)) -> (
    A::V,
    B::V,
) where
    A: GroupOperation<KA, CA>,
    B: GroupOperation<KB, CB>,
    KA: OperationKind,
    KB: OperationKind,
    CA: OperationCommutativity,
    CB: OperationCommutativity,
 {
    (A::op_spec(x.0, y.0), B::op_spec(x.1, y.1))
}

/// The inverse of a pair, component by component.
pub open spec fn product_inv<A, B, KA, KB, CA, CB>(x: (A::V, B::V)) -> (A::V, B::V) where
    A: GroupOperation<KA, CA>,
    B: GroupOperation<KB, CB>,
    KA: OperationKind,
    KB: OperationKind,
    CA: OperationCommutativity,
    CB: OperationCommutativity,
 {
    (A::inv_spec(x.0), B::inv_spec(x.1))
}

/// The pair of the neutral elements.
pub open spec fn product_id<A, B, KA, KB, CA, CB>() -> (A::V, B::V) where
    A: GroupOperation<KA, CA>,
    B: GroupOperation<KB, CB>,
    KA: OperationKind,
    KB: OperationKind,
    CA: OperationCommutativity,
    CB: OperationCommutativity,
 {
    (A::id_spec(), B::id_spec())
}

/// Two pairs denote the same element when their components do.
pub open spec fn product_eqv<A, B, KA, KB, CA, CB>(x: (A::V, B::V), y: (A::V, B::V)) -> bool where
    A: GroupOperation<KA, CA>,
    B: GroupOperation<KB, CB>,
    KA: OperationKind,
    KB: OperationKind,
    CA: OperationCommutativity,
    CB: OperationCommutativity,
 {
    A::eqv(x.0, y.0) && B::eqv(x.1, y.1)
}

/// Both components are invertible.
pub open spec fn product_invertible<A, B, KA, KB, CA, CB>(x: (A::V, B::V)) -> bool where
    A: GroupOperation<KA, CA>,
    B: GroupOperation<KB, CB>,
    KA: OperationKind,
    KB: OperationKind,
    CA: OperationCommutativity,
    CB: OperationCommutativity,
 {
    A::invertible(x.0) && B::invertible(x.1)
}

impl<A, B, KA, KB, CA, CB> Element for GroupProduct<A, B, KA, KB, CA, CB> where
    A: GroupOperation<KA, CA>,
    B: GroupOperation<KB, CB>,
    KA: OperationKind,
    KB: OperationKind,
    CA: OperationCommutativity,
    CB: OperationCommutativity,
 {
    open spec fn member(v: (A::V, B::V)) -> bool {
        A::member(v.0) && B::member(v.1)
    }

    open spec fn eqv(x: (A::V, B::V), y: (A::V, B::V)) -> bool {
        product_eqv::<A, B, KA, KB, CA, CB>(x, y)
    }

    open spec fn eq_req(x: (A::V, B::V), y: (A::V, B::V)) -> bool {
        A::eq_req(x.0, y.0) && B::eq_req(x.1, y.1)
    }

    fn equals(&self, other: &Self) -> (r: bool) {
        self.e.0.equals(&other.e.0) && self.e.1.equals(&other.e.1)
    }
}

impl<A, B, KA, KB, CA, CB> GroupProduct<A, B, KA, KB, CA, CB> where
    A: GroupOperation<KA, CA>,
    B: GroupOperation<KB, CB>,
    KA: OperationKind,
    KB: OperationKind,
    CA: OperationCommutativity,
    CB: OperationCommutativity,
 {
    pub fn new(a: A, b: B) -> (r: Self)
        ensures
            r@ == (a@, b@),
    {
        Self {
            e: (a, b),
            _kind_a: PhantomData,
            _kind_b: PhantomData,
            _commutativity_a: PhantomData,
            _commutativity_b: PhantomData,
        }
    }

    /// The component from the first group.
    pub fn first(&self) -> (r: &A)
        ensures
            r@ == self@.0,
    {
        &self.e.0
    }

    /// The component from the second group.
    pub fn second(&self) -> (r: &B)
        ensures
            r@ == self@.1,
    {
        &self.e.1
    }

    /// Composition, component by component.
    pub fn op(&self, rhs: &Self) -> (r: Self)
        requires
            A::op_req(self@.0, rhs@.0),
            B::op_req(self@.1, rhs@.1),
        ensures
            r@ == product_op::<A, B, KA, KB, CA, CB>(self@, rhs@),
            Self::member(r@),
    {
        Self::new(self.e.0.op(&rhs.e.0), self.e.1.op(&rhs.e.1))
    }

    /// The inverse, component by component.
    pub fn inv(&self) -> (r: Self)
        requires
            A::inv_req(self@.0),
            B::inv_req(self@.1),
        ensures
            r@ == product_inv::<A, B, KA, KB, CA, CB>(self@),
            Self::member(r@),
    {
        Self::new(self.e.0.inv(), self.e.1.inv())
    }

    /// The pair of the neutral elements.
    pub fn id() -> (r: Self)
        requires
            A::id_req(),
            B::id_req(),
        ensures
            r@ == product_id::<A, B, KA, KB, CA, CB>(),
            Self::member(r@),
    {
        Self::new(A::id(), B::id())
    }
}

/// The identity law of the product: e ∘ x = x = x ∘ e.
pub proof fn lemma_product_identity<A, B, KA, KB, CA, CB>(x: (A::V, B::V)) where
    A: GroupOperation<KA, CA>,
    B: GroupOperation<KB, CB>,
    KA: OperationKind,
    KB: OperationKind,
    CA: OperationCommutativity,
    CB: OperationCommutativity,

    requires
        A::member(x.0),
        B::member(x.1),
    ensures
        product_eqv::<A, B, KA, KB, CA, CB>(
            product_op::<A, B, KA, KB, CA, CB>(product_id::<A, B, KA, KB, CA, CB>(), x),
            x,
        ),
        product_eqv::<A, B, KA, KB, CA, CB>(
            product_op::<A, B, KA, KB, CA, CB>(x, product_id::<A, B, KA, KB, CA, CB>()),
            x,
        ),
{
    A::lemma_identity(x.0);
    B::lemma_identity(x.1);
}

/// The inverse law of the product: x ∘ x⁻¹ = e = x⁻¹ ∘ x.
pub proof fn lemma_product_inverse<A, B, KA, KB, CA, CB>(x: (A::V, B::V)) where
    A: GroupOperation<KA, CA>,
    B: GroupOperation<KB, CB>,
    KA: OperationKind,
    KB: OperationKind,
    CA: OperationCommutativity,
    CB: OperationCommutativity,

    requires
        product_invertible::<A, B, KA, KB, CA, CB>(x),
    ensures
        product_eqv::<A, B, KA, KB, CA, CB>(
            product_op::<A, B, KA, KB, CA, CB>(x, product_inv::<A, B, KA, KB, CA, CB>(x)),
            product_id::<A, B, KA, KB, CA, CB>(),
        ),
        product_eqv::<A, B, KA, KB, CA, CB>(
            product_op::<A, B, KA, KB, CA, CB>(product_inv::<A, B, KA, KB, CA, CB>(x), x),
            product_id::<A, B, KA, KB, CA, CB>(),
        ),
{
    A::lemma_inverse(x.0);
    B::lemma_inverse(x.1);
}

/// The product's composition is associative.
pub proof fn lemma_product_associative<A, B, KA, KB, CA, CB>(
    x: (A::V, B::V),
    y: (A::V, B::V),
    z: (A::V, B::V),
) where
    A: GroupOperation<KA, CA>,
    B: GroupOperation<KB, CB>,
    KA: OperationKind,
    KB: OperationKind,
    CA: OperationCommutativity,
    CB: OperationCommutativity,

    requires
        A::member(x.0),
        B::member(x.1),
        A::member(y.0),
        B::member(y.1),
        A::member(z.0),
        B::member(z.1),
    ensures
        product_eqv::<A, B, KA, KB, CA, CB>(
            product_op::<A, B, KA, KB, CA, CB>(product_op::<A, B, KA, KB, CA, CB>(x, y), z),
            product_op::<A, B, KA, KB, CA, CB>(x, product_op::<A, B, KA, KB, CA, CB>(y, z)),
        ),
{
    A::lemma_associative(x.0, y.0, z.0);
    B::lemma_associative(x.1, y.1, z.1);
}

/// In the product too, (x ∘ y)⁻¹ = y⁻¹ ∘ x⁻¹.
pub proof fn lemma_product_inverse_of_composition<A, B, KA, KB, CA, CB>(
    x: (A::V, B::V),
    y: (A::V, B::V),
) where
    A: GroupOperation<KA, CA>,
    B: GroupOperation<KB, CB>,
    KA: OperationKind,
    KB: OperationKind,
    CA: OperationCommutativity,
    CB: OperationCommutativity,

    requires
        product_invertible::<A, B, KA, KB, CA, CB>(x),
        product_invertible::<A, B, KA, KB, CA, CB>(y),
    ensures
        product_eqv::<A, B, KA, KB, CA, CB>(
            product_inv::<A, B, KA, KB, CA, CB>(product_op::<A, B, KA, KB, CA, CB>(x, y)),
            product_op::<A, B, KA, KB, CA, CB>(
                product_inv::<A, B, KA, KB, CA, CB>(y),
                product_inv::<A, B, KA, KB, CA, CB>(x),
            ),
        ),
{
    lemma_inverse_of_composition::<A, KA, CA>(x.0, y.0);
    lemma_inverse_of_composition::<B, KB, CB>(x.1, y.1);
}

} // verus!
