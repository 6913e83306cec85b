//! The symmetries of a regular polygon with `N` corners.
use crate::groups::GroupOperation;
use crate::monoid::MonoidOperation;
use crate::number_theory::lemma_mod_below_three;
use crate::ops::{
    Associative, BinaryOperation, Element, Identity, Invertible, Multiplication, NonCommutative,
};
use vstd::prelude::*;
use vstd::std_specs::ops::MulSpecImpl;

verus! {

/// A symmetry of the regular `N`-gon: a rotation by `rotation` steps,
/// after a reflection if `flipped`.
///
/// The model is the pair (rotation, flipped). A value is a member when its
/// rotation is reduced modulo `N`; every value that `new` makes is.
#[derive(Debug, PartialEq, Eq, Clone, Copy)]
pub struct DihedralElement<const N: usize> {
    flipped: bool,
    rotation: usize,
}

impl<const N: usize> View for DihedralElement<N> {
    type V = (int, bool);

    closed spec fn view(&self) -> (int, bool) {
        (self.rotation as int, self.flipped)
    }
}

/// The composition law on models: with σ a rotation by one step and τ the
/// reflection, (r, f) stands for τ^f σ^r.
pub open spec fn compose(n: int, a: (int, bool), b: (int, bool)) -> (int, bool) {
    if b.1 {
        ((n + b.0 - a.0) % n, !a.1)
    } else {
        ((a.0 + b.0) % n, a.1)
    }
}

/// The inverse on models: a reflection is its own inverse, a rotation is
/// undone by the opposite rotation.
pub open spec fn invert(n: int, a: (int, bool)) -> (int, bool) {
    if a.1 {
        a
    } else {
        ((n - a.0) % n, false)
    }
}

/// What composition and inversion give on members, without division.
proof fn lemma_compose_values(n: int, a: (int, bool), b: (int, bool))
    requires
        0 <= a.0 < n,
        0 <= b.0 < n,
    ensures
        0 <= compose(n, a, b).0 < n,
        compose(n, a, b).0 == if b.1 {
            if b.0 >= a.0 {
                b.0 - a.0
            } else {
                n + b.0 - a.0
            }
        } else {
            if a.0 + b.0 < n {
                a.0 + b.0
            } else {
                a.0 + b.0 - n
            }
        },
        0 <= invert(n, a).0 < n,
        invert(n, a).0 == if a.1 || a.0 == 0 {
            a.0
        } else {
            n - a.0
        },
{
    lemma_mod_below_three(n + b.0 - a.0, n);
    lemma_mod_below_three(a.0 + b.0, n);
    lemma_mod_below_three(n - a.0, n);
}

impl<const N: usize> DihedralElement<N> {
    /// The symmetry that rotates by `rotation` steps, after a reflection
    /// if `flipped`. The rotation is reduced modulo `N`.
    pub fn new(rotation: usize, flipped: bool) -> (r: Self)
        requires
            N > 0,
        ensures
            r@ == ((rotation % N) as int, flipped),
            Self::member(r@),
    {
        Self { flipped, rotation: rotation % N }
    }

    /// The number of rotation steps, in `0..N` for a member.
    pub fn rotation(&self) -> (r: usize)
        ensures
            r == self@.0,
    {
        self.rotation
    }

    /// Whether the symmetry reflects.
    pub fn flipped(&self) -> (r: bool)
        ensures
            r == self@.1,
    {
        self.flipped
    }
}

impl<const N: usize> Element for DihedralElement<N> {
    open spec fn member(v: (int, bool)) -> bool {
        0 <= v.0 < N
    }

    open spec fn eqv(a: (int, bool), b: (int, bool)) -> bool {
        a == b
    }

    open spec fn eq_req(a: (int, bool), b: (int, bool)) -> bool {
        true
    }

    fn equals(&self, other: &Self) -> (r: bool) {
        self.rotation == other.rotation && self.flipped == other.flipped
    }
}

impl<const N: usize> BinaryOperation<Multiplication, NonCommutative, Associative> for DihedralElement<
    N,
> {
    open spec fn op_spec(a: (int, bool), b: (int, bool)) -> (int, bool) {
        compose(N as int, a, b)
    }

    open spec fn op_req(a: (int, bool), b: (int, bool)) -> bool {
        Self::member(a) && Self::member(b)
    }

    fn op(&self, rhs: &Self) -> (r: Self) {
        proof {
            lemma_compose_values(N as int, self@, rhs@);
        }
        if rhs.flipped {
            let wide: u128 = N as u128 + rhs.rotation as u128 - self.rotation as u128;
            DihedralElement { flipped: !self.flipped, rotation: (wide % (N as u128)) as usize }
        } else {
            let wide: u128 = self.rotation as u128 + rhs.rotation as u128;
            DihedralElement { flipped: self.flipped, rotation: (wide % (N as u128)) as usize }
        }
    }
}

impl<const N: usize> Identity<Multiplication> for DihedralElement<N> {
    open spec fn id_spec() -> (int, bool) {
        (0, false)
    }

    open spec fn id_req() -> bool {
        N > 0
    }

    fn id() -> (r: Self) {
        Self { flipped: false, rotation: 0 }
    }
}

impl<const N: usize> Invertible<Multiplication> for DihedralElement<N> {
    open spec fn inv_spec(a: (int, bool)) -> (int, bool) {
        invert(N as int, a)
    }

    open spec fn invertible(a: (int, bool)) -> bool {
        Self::member(a)
    }

    open spec fn inv_req(a: (int, bool)) -> bool {
        Self::member(a)
    }

    fn inv(&self) -> (r: Self) {
        proof {
            lemma_compose_values(N as int, self@, self@);
        }
        if self.flipped {
            Self { flipped: true, rotation: self.rotation }
        } else {
            Self { flipped: false, rotation: (N - self.rotation) % N }
        }
    }
}

impl<const N: usize> MonoidOperation<Multiplication, NonCommutative> for DihedralElement<N> {
    proof fn lemma_eqv_reflexive(a: (int, bool)) {
    }

    proof fn lemma_eqv_symmetric(a: (int, bool), b: (int, bool)) {
    }

    proof fn lemma_eqv_transitive(a: (int, bool), b: (int, bool), c: (int, bool)) {
    }

    proof fn lemma_closed(a: (int, bool), b: (int, bool)) {
        lemma_compose_values(N as int, a, b);
    }

    proof fn lemma_congruent(a1: (int, bool), a2: (int, bool), b1: (int, bool), b2: (int, bool)) {
    }

    proof fn lemma_associative(a: (int, bool), b: (int, bool), c: (int, bool)) {
        let n = N as int;
        let ab = compose(n, a, b);
        let bc = compose(n, b, c);
        lemma_compose_values(n, a, b);
        lemma_compose_values(n, b, c);
        lemma_compose_values(n, ab, c);
        lemma_compose_values(n, a, bc);
    }

    proof fn lemma_commutative(a: (int, bool), b: (int, bool)) {
    }

    proof fn lemma_identity(x: (int, bool)) {
        let n = N as int;
        lemma_compose_values(n, (0, false), x);
        lemma_compose_values(n, x, (0, false));
    }
}

impl<const N: usize> GroupOperation<Multiplication, NonCommutative> for DihedralElement<N> {
    proof fn lemma_inverse(x: (int, bool)) {
        let n = N as int;
        let ix = invert(n, x);
        lemma_compose_values(n, x, x);
        lemma_compose_values(n, x, ix);
        lemma_compose_values(n, ix, x);
    }

    proof fn lemma_invertible_closed(a: (int, bool), b: (int, bool)) {
        lemma_compose_values(N as int, a, b);
    }

    proof fn lemma_inverse_congruent(a: (int, bool), b: (int, bool)) {
    }
}

// ---------- operators ----------
impl<const N: usize> core::ops::Mul for DihedralElement<N> {
    type Output = DihedralElement<N>;

    /// The composition.
    fn mul(self, rhs: DihedralElement<N>) -> (r: DihedralElement<N>)
        ensures
            r@ == <DihedralElement<N> as BinaryOperation<Multiplication, NonCommutative, Associative>>::op_spec(self@, rhs@),
            Self::member(r@),
    {
        <DihedralElement<N> as BinaryOperation<Multiplication, NonCommutative, Associative>>::op(&self, &rhs)
    }
}

impl<const N: usize> MulSpecImpl for DihedralElement<N> {
    /// The result is stated on models, by the `ensures` of `mul`.
    open spec fn obeys_mul_spec() -> bool {
        false
    }

    open spec fn mul_req(self, rhs: DihedralElement<N>) -> bool {
        <DihedralElement<N> as BinaryOperation<Multiplication, NonCommutative, Associative>>::op_req(self@, rhs@)
    }

    open spec fn mul_spec(self, rhs: DihedralElement<N>) -> DihedralElement<N> {
        arbitrary()
    }
}

} // verus!
