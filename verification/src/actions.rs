//! Group actions: a group element as a transformation of a set.
use crate::groups::GroupOperation;
use crate::ops::{Multiplication, NonCommutative, OperationCommutativity, OperationKind};
use crate::primitives::Permutation;
use vstd::prelude::*;

verus! {

/// A left action of a group on the set of the values of `X` that are
/// `in_set`.
pub trait GroupAction<X, K, C>: GroupOperation<K, C> where
    K: OperationKind,
    C: OperationCommutativity,
 {
    /// The set acted on.
    spec fn in_set(x: X) -> bool;

    /// What the element `g` makes of `x`.
    spec fn act_spec(g: Self::V, x: X) -> X;

    fn action(&self, x: &X) -> (r: X)
        requires
            Self::member(self@),
            Self::in_set(*x),
        ensures
            r == Self::act_spec(self@, *x),
            Self::in_set(r),
    ;

    /// The neutral element does nothing.
    proof fn lemma_action_identity(x: X)
        requires
            Self::in_set(x),
        ensures
            Self::act_spec(Self::id_spec(), x) == x,
    ;

    /// Acting with g ∘ h is acting with h, then with g.
    proof fn lemma_action_compatible(g: Self::V, h: Self::V, x: X)
        requires
            Self::member(g),
            Self::member(h),
            Self::in_set(x),
        ensures
            Self::in_set(Self::act_spec(h, x)),
            Self::act_spec(Self::op_spec(g, h), x) == Self::act_spec(g, Self::act_spec(h, x)),
    ;

    /// Models of the same element act alike.
    proof fn lemma_action_congruent(g: Self::V, h: Self::V, x: X)
        requires
            Self::member(g),
            Self::member(h),
            Self::eqv(g, h),
            Self::in_set(x),
        ensures
            Self::act_spec(g, x) == Self::act_spec(h, x),
    ;
}

/// Acting with g² is acting with g twice.
pub proof fn lemma_action_square<G, X, K, C>(g: G::V, x: X) where
    G: GroupAction<X, K, C>,
    K: OperationKind,
    C: OperationCommutativity,

    requires
        G::member(g),
        G::in_set(x),
    ensures
        G::act_spec(G::op_spec(g, g), x) == G::act_spec(g, G::act_spec(g, x)),
{
    G::lemma_action_compatible(g, g, x);
}

/// Acting with g and then with g⁻¹ gives back what one started from.
pub proof fn lemma_action_round_trip<G, X, K, C>(g: G::V, x: X) where
    G: GroupAction<X, K, C>,
    K: OperationKind,
    C: OperationCommutativity,

    requires
        G::invertible(g),
        G::in_set(x),
    ensures
        G::act_spec(G::inv_spec(g), G::act_spec(g, x)) == x,
{
    let ig = G::inv_spec(g);
    G::lemma_inverse(g);
    G::lemma_inverse(ig);
    G::lemma_identity(g);
    G::lemma_closed(ig, g);
    G::lemma_action_compatible(ig, g, x);
    G::lemma_action_congruent(G::op_spec(ig, g), G::id_spec(), x);
    G::lemma_action_identity(x);
}

/// The trivial action: every element of every group leaves every value as
/// it is.
pub struct IdentityAction;

impl IdentityAction {
    pub fn action<G, X: Copy>(g: &G, x: &X) -> (r: X)
        ensures
            r == *x,
    {
        *x
    }
}

/// A permutation of {1, …, N} acts on the points 1, …, N by taking each to
/// its image.
impl<const N: usize> GroupAction<usize, Multiplication, NonCommutative> for Permutation<N> {
    open spec fn in_set(x: usize) -> bool {
        1 <= x <= N
    }

    open spec fn act_spec(g: Seq<int>, x: usize) -> usize {
        g[x - 1] as usize
    }

    fn action(&self, x: &usize) -> (r: usize) {
        self.image(*x)
    }

    proof fn lemma_action_identity(x: usize) {
    }

    proof fn lemma_action_compatible(g: Seq<int>, h: Seq<int>, x: usize) {
        assert(1 <= h[x - 1] <= N);
    }

    proof fn lemma_action_congruent(g: Seq<int>, h: Seq<int>, x: usize) {
    }
}

} // verus!
