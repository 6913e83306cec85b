//! The capabilities an element type can have: a closed binary operation,
//! a neutral element, inverses; and the tags that say which operation is
//! meant and what is claimed of it.
//!
//! Every element type has a mathematical model, its view. The operations
//! are specified on models, where they are total on the carrier set; the
//! executable methods compute them wherever the machine can hold the
//! result.
use crate::private::Seal;
use vstd::prelude::*;

verus! {

/// Tag trait: whether an operation is claimed to be associative.
pub trait OperationAssociativity: Seal + Sized {

}

#[derive(Debug, Default, Clone, Copy, PartialEq, Eq)]
pub struct Associative;

impl Seal for Associative {

}

impl OperationAssociativity for Associative {

}

#[derive(Debug, Default, Clone, Copy, PartialEq, Eq)]
pub struct NonAssociative;

impl Seal for NonAssociative {

}

impl OperationAssociativity for NonAssociative {

}

/// Tag trait: whether an operation is claimed to be commutative.
pub trait OperationCommutativity: Seal + Sized {
    /// True for the tag that makes the claim.
    spec fn claimed() -> bool;
}

#[derive(Debug, Default, Clone, Copy, PartialEq, Eq)]
pub struct Commutative;

impl Seal for Commutative {

}

impl OperationCommutativity for Commutative {
    open spec fn claimed() -> bool {
        true
    }
}

#[derive(Debug, Default, Clone, Copy, PartialEq, Eq)]
pub struct NonCommutative;

impl Seal for NonCommutative {

}

impl OperationCommutativity for NonCommutative {
    open spec fn claimed() -> bool {
        false
    }
}

/// Tag trait: which of the operations of a type is meant.
pub trait OperationKind: Seal + Sized {

}

#[derive(Debug, Default, Clone, Copy, PartialEq, Eq)]
pub struct Multiplication;

impl Seal for Multiplication {

}

impl OperationKind for Multiplication {

}

#[derive(Debug, Default, Clone, Copy, PartialEq, Eq)]
pub struct Addition;

impl Seal for Addition {

}

impl OperationKind for Addition {

}

/// A type whose values stand for elements of a set.
///
/// The view is the element's model. `member` picks the models that belong
/// to the carrier set, and `eqv` says when two models denote the same
/// element (for most types, when they are equal).
pub trait Element: Sized + View {
    /// The models that are elements of the carrier set.
    spec fn member(v: Self::V) -> bool;

    /// The equality of the structure, on models.
    spec fn eqv(a: Self::V, b: Self::V) -> bool;

    /// When `equals` can be computed.
    spec fn eq_req(a: Self::V, b: Self::V) -> bool;

    /// Decides `eqv`.
    fn equals(&self, other: &Self) -> (r: bool)
        requires
            Self::eq_req(self@, other@),
        ensures
            r == Self::eqv(self@, other@),
    ;
}

/// A closed binary operation of kind `K`, with the claims `C` and `A`.
///
/// The tags are claims of the implementer. They become obligations where a
/// structure is built on them: see `MonoidOperation`, `GroupOperation` and
/// `RingOperation`.
pub trait BinaryOperation<
    K: OperationKind,
    C: OperationCommutativity = NonCommutative,
    A: OperationAssociativity = Associative,
>: Element {
    /// The operation on models.
    spec fn op_spec(a: Self::V, b: Self::V) -> Self::V;

    /// When `op` can be computed: both operands are members and the result
    /// can be held.
    spec fn op_req(a: Self::V, b: Self::V) -> bool;

    fn op(&self, rhs: &Self) -> (r: Self)
        requires
            Self::op_req(self@, rhs@),
        ensures
            r@ == Self::op_spec(self@, rhs@),
            Self::member(r@),
    ;
}

/// Inverses under the operation of kind `K`.
pub trait Invertible<K: OperationKind>: Element {
    /// The inverse on models.
    spec fn inv_spec(a: Self::V) -> Self::V;

    /// The members that have an inverse.
    spec fn invertible(a: Self::V) -> bool;

    /// When `inv` can be computed: the operand is invertible and the result
    /// can be held.
    spec fn inv_req(a: Self::V) -> bool;

    fn inv(&self) -> (r: Self)
        requires
            Self::inv_req(self@),
        ensures
            r@ == Self::inv_spec(self@),
            Self::member(r@),
    ;
}

/// The neutral element of the operation of kind `K`.
pub trait Identity<K: OperationKind>: Element {
    /// The neutral element's model.
    spec fn id_spec() -> Self::V;

    /// When the type has a neutral element at all (a condition on the
    /// type's parameters).
    spec fn id_req() -> bool;

    fn id() -> (r: Self)
        requires
            Self::id_req(),
        ensures
            r@ == Self::id_spec(),
            Self::member(r@),
    ;
}

/// (a ∘ b) ∘ c = a ∘ (b ∘ c), for these three.
pub open spec fn associative_at<T, K, C, A>(a: T::V, b: T::V, c: T::V) -> bool where
    T: BinaryOperation<K, C, A>,
    K: OperationKind,
    C: OperationCommutativity,
    A: OperationAssociativity,
 {
    T::eqv(T::op_spec(T::op_spec(a, b), c), T::op_spec(a, T::op_spec(b, c)))
}

/// The machine can compute and compare both sides of `associative_at`.
pub open spec fn associativity_checkable<T, K, C, A>(a: T::V, b: T::V, c: T::V) -> bool where
    T: BinaryOperation<K, C, A>,
    K: OperationKind,
    C: OperationCommutativity,
    A: OperationAssociativity,
 {
    &&& T::op_req(a, b)
    &&& T::op_req(T::op_spec(a, b), c)
    &&& T::op_req(b, c)
    &&& T::op_req(a, T::op_spec(b, c))
    &&& T::eq_req(T::op_spec(T::op_spec(a, b), c), T::op_spec(a, T::op_spec(b, c)))
}

/// Checks associativity on every three neighbours of a sample: whether
/// (a ∘ b) ∘ c = a ∘ (b ∘ c) for each window a, b, c of `elems`.
pub fn test_accociativity<T, K, C, A>(elems: &[T]) -> (r: bool) where
    T: BinaryOperation<K, C, A>,
    K: OperationKind,
    C: OperationCommutativity,
    A: OperationAssociativity,

    requires
        forall|i: int|
            0 <= i && i + 2 < elems@.len() ==> associativity_checkable::<T, K, C, A>(
                (#[trigger] elems@[i])@,
                elems@[i + 1]@,
                elems@[i + 2]@,
            ),
    ensures
        r == forall|i: int|
            0 <= i && i + 2 < elems@.len() ==> associative_at::<T, K, C, A>(
                (#[trigger] elems@[i])@,
                elems@[i + 1]@,
                elems@[i + 2]@,
            ),
{
    let n = elems.len();
    if n < 3 {
        return true;
    }
    let mut i: usize = 0;
    while i + 2 < n
        invariant
            n == elems@.len(),
            n >= 3,
            i + 2 <= n,
            forall|j: int|
                0 <= j && j + 2 < elems@.len() ==> associativity_checkable::<T, K, C, A>(
                    (#[trigger] elems@[j])@,
                    elems@[j + 1]@,
                    elems@[j + 2]@,
                ),
            forall|j: int|
                0 <= j < i ==> associative_at::<T, K, C, A>(
                    (#[trigger] elems@[j])@,
                    elems@[j + 1]@,
                    elems@[j + 2]@,
                ),
        decreases n - i,
    {
        let a = &elems[i];
        let b = &elems[i + 1];
        let c = &elems[i + 2];
        assert(associativity_checkable::<T, K, C, A>(elems@[i as int]@, b@, c@));
        let left = a.op(b).op(c);
        let right = a.op(&b.op(c));
        if !left.equals(&right) {
            assert(!associative_at::<T, K, C, A>(elems@[i as int]@, elems@[i + 1]@, elems@[i + 2]@));
            return false;
        }
        i = i + 1;
    }
    true
}

/// a ∘ b = b ∘ a, for these two.
pub open spec fn commutative_at<T, K, C, A>(a: T::V, b: T::V) -> bool where
    T: BinaryOperation<K, C, A>,
    K: OperationKind,
    C: OperationCommutativity,
    A: OperationAssociativity,
 {
    T::eqv(T::op_spec(a, b), T::op_spec(b, a))
}

/// The machine can compute and compare both sides of `commutative_at`.
pub open spec fn commutativity_checkable<T, K, C, A>(a: T::V, b: T::V) -> bool where
    T: BinaryOperation<K, C, A>,
    K: OperationKind,
    C: OperationCommutativity,
    A: OperationAssociativity,
 {
    &&& T::op_req(a, b)
    &&& T::op_req(b, a)
    &&& T::eq_req(T::op_spec(a, b), T::op_spec(b, a))
}

/// Checks commutativity on every two neighbours of a sample: whether
/// a ∘ b = b ∘ a for each window a, b of `elems`.
pub fn test_commutativity<T, K, C, A>(elems: &[T]) -> (r: bool) where
    T: BinaryOperation<K, C, A>,
    K: OperationKind,
    C: OperationCommutativity,
    A: OperationAssociativity,

    requires
        forall|i: int|
            0 <= i && i + 1 < elems@.len() ==> commutativity_checkable::<T, K, C, A>(
                (#[trigger] elems@[i])@,
                elems@[i + 1]@,
            ),
    ensures
        r == forall|i: int|
            0 <= i && i + 1 < elems@.len() ==> commutative_at::<T, K, C, A>(
                (#[trigger] elems@[i])@,
                elems@[i + 1]@,
            ),
{
    let n = elems.len();
    if n < 2 {
        return true;
    }
    let mut i: usize = 0;
    while i + 1 < n
        invariant
            n == elems@.len(),
            n >= 2,
            i + 1 <= n,
            forall|j: int|
                0 <= j && j + 1 < elems@.len() ==> commutativity_checkable::<T, K, C, A>(
                    (#[trigger] elems@[j])@,
                    elems@[j + 1]@,
                ),
            forall|j: int|
                0 <= j < i ==> commutative_at::<T, K, C, A>(
                    (#[trigger] elems@[j])@,
                    elems@[j + 1]@,
                ),
        decreases n - i,
    {
        let a = &elems[i];
        let b = &elems[i + 1];
        assert(commutativity_checkable::<T, K, C, A>(elems@[i as int]@, b@));
        let left = a.op(b);
        let right = b.op(a);
        if !left.equals(&right) {
            assert(!commutative_at::<T, K, C, A>(elems@[i as int]@, elems@[i + 1]@));
            return false;
        }
        i = i + 1;
    }
    true
}

} // verus!
