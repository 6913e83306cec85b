//! What follows from the ring laws in every ring, and in every integral
//! domain.
use crate::groups::{lemma_inverse_unique, GroupOperation};
use crate::monoid::MonoidOperation;
use crate::ops::{
    Addition, Associative, BinaryOperation, Commutative, Invertible, Multiplication,
    OperationCommutativity,
};
use crate::rings::{
    add_spec, mul_spec, neg_spec, one_spec, zero_spec, Factorability, Integral, Integrality,
    RingOperation,
};
use vstd::prelude::*;

verus! {

/// The everyday facts of a ring, for all members at once: `eqv` is an
/// equivalence, sums, products and negatives of members are members, and
/// sums, products and negatives respect `eqv`.
pub proof fn lemma_ring_basics<E, C, I, F>(witness: E::V) where
    E: RingOperation<C, I, F>,
    C: OperationCommutativity,
    I: Integrality,
    F: Factorability,

    requires
        E::member(witness),
    ensures
        E::member(zero_spec::<E>()),
        E::member(one_spec::<E>()),
        forall|a: E::V| E::member(a) ==> #[trigger] E::eqv(a, a),
        forall|a: E::V, b: E::V|
            E::member(a) && E::member(b) && #[trigger] E::eqv(a, b) ==> E::eqv(b, a),
        forall|a: E::V, b: E::V, c: E::V|
            E::member(a) && E::member(b) && E::member(c) && #[trigger] E::eqv(a, b)
                && #[trigger] E::eqv(b, c) ==> E::eqv(a, c),
        forall|a: E::V, b: E::V|
            E::member(a) && E::member(b) ==> E::member(
                #[trigger] <E as BinaryOperation<Addition, Commutative, Associative>>::op_spec(
                    a,
                    b,
                ),
            ),
        forall|a: E::V, b: E::V|
            E::member(a) && E::member(b) ==> E::member(
                #[trigger] <E as BinaryOperation<Multiplication, C, Associative>>::op_spec(a, b),
            ),
        forall|a: E::V|
            E::member(a) ==> E::member(#[trigger] <E as Invertible<Addition>>::inv_spec(a)),
        forall|a1: E::V, a2: E::V, b1: E::V, b2: E::V|
            E::member(a1) && E::member(a2) && E::member(b1) && E::member(b2) && E::eqv(a1, a2)
                && E::eqv(b1, b2) ==> E::eqv(
                #[trigger] <E as BinaryOperation<Addition, Commutative, Associative>>::op_spec(
                    a1,
                    b1,
                ),
                #[trigger] <E as BinaryOperation<Addition, Commutative, Associative>>::op_spec(
                    a2,
                    b2,
                ),
            ),
        forall|a1: E::V, a2: E::V, b1: E::V, b2: E::V|
            E::member(a1) && E::member(a2) && E::member(b1) && E::member(b2) && E::eqv(a1, a2)
                && E::eqv(b1, b2) ==> E::eqv(
                #[trigger] <E as BinaryOperation<Multiplication, C, Associative>>::op_spec(a1, b1),
                #[trigger] <E as BinaryOperation<Multiplication, C, Associative>>::op_spec(a2, b2),
            ),
        forall|a: E::V, b: E::V|
            E::member(a) && E::member(b) && E::eqv(a, b) ==> E::eqv(
                #[trigger] <E as Invertible<Addition>>::inv_spec(a),
                #[trigger] <E as Invertible<Addition>>::inv_spec(b),
            ),
{
    <E as MonoidOperation<Addition, Commutative>>::lemma_identity(witness);
    <E as MonoidOperation<Multiplication, C>>::lemma_identity(witness);
    assert forall|a: E::V| E::member(a) implies #[trigger] E::eqv(a, a) by {
        <E as MonoidOperation<Addition, Commutative>>::lemma_eqv_reflexive(a);
    }
    assert forall|a: E::V, b: E::V|
        E::member(a) && E::member(b) && #[trigger] E::eqv(a, b) implies E::eqv(b, a) by {
        <E as MonoidOperation<Addition, Commutative>>::lemma_eqv_symmetric(a, b);
    }
    assert forall|a: E::V, b: E::V, c: E::V|
        E::member(a) && E::member(b) && E::member(c) && #[trigger] E::eqv(a, b)
            && #[trigger] E::eqv(b, c) implies E::eqv(a, c) by {
        <E as MonoidOperation<Addition, Commutative>>::lemma_eqv_transitive(a, b, c);
    }
    assert forall|a: E::V, b: E::V| E::member(a) && E::member(b) implies E::member(
        #[trigger] <E as BinaryOperation<Addition, Commutative, Associative>>::op_spec(a, b),
    ) by {
        <E as MonoidOperation<Addition, Commutative>>::lemma_closed(a, b);
    }
    assert forall|a: E::V, b: E::V| E::member(a) && E::member(b) implies E::member(
        #[trigger] <E as BinaryOperation<Multiplication, C, Associative>>::op_spec(a, b),
    ) by {
        <E as MonoidOperation<Multiplication, C>>::lemma_closed(a, b);
    }
    assert forall|a: E::V| E::member(a) implies E::member(
        #[trigger] <E as Invertible<Addition>>::inv_spec(a),
    ) by {
        E::lemma_negation_total(a);
        <E as GroupOperation<Addition, Commutative>>::lemma_inverse(a);
        <E as GroupOperation<Addition, Commutative>>::lemma_inverse(neg_spec::<E>(a));
    }
    assert forall|a1: E::V, a2: E::V, b1: E::V, b2: E::V|
        E::member(a1) && E::member(a2) && E::member(b1) && E::member(b2) && E::eqv(a1, a2)
            && E::eqv(b1, b2) implies E::eqv(
        #[trigger] <E as BinaryOperation<Addition, Commutative, Associative>>::op_spec(a1, b1),
        #[trigger] <E as BinaryOperation<Addition, Commutative, Associative>>::op_spec(a2, b2),
    ) by {
        <E as MonoidOperation<Addition, Commutative>>::lemma_congruent(a1, a2, b1, b2);
    }
    assert forall|a1: E::V, a2: E::V, b1: E::V, b2: E::V|
        E::member(a1) && E::member(a2) && E::member(b1) && E::member(b2) && E::eqv(a1, a2)
            && E::eqv(b1, b2) implies E::eqv(
        #[trigger] <E as BinaryOperation<Multiplication, C, Associative>>::op_spec(a1, b1),
        #[trigger] <E as BinaryOperation<Multiplication, C, Associative>>::op_spec(a2, b2),
    ) by {
        <E as MonoidOperation<Multiplication, C>>::lemma_congruent(a1, a2, b1, b2);
    }
    assert forall|a: E::V, b: E::V| E::member(a) && E::member(b) && E::eqv(a, b) implies E::eqv(
        #[trigger] <E as Invertible<Addition>>::inv_spec(a),
        #[trigger] <E as Invertible<Addition>>::inv_spec(b),
    ) by {
        E::lemma_negation_total(a);
        <E as GroupOperation<Addition, Commutative>>::lemma_inverse_congruent(a, b);
    }
}

/// In the additive group, a + c = b + c gives a = b.
pub proof fn lemma_add_cancel<E, C, I, F>(a: E::V, b: E::V, c: E::V) where
    E: RingOperation<C, I, F>,
    C: OperationCommutativity,
    I: Integrality,
    F: Factorability,

    requires
        E::member(a),
        E::member(b),
        E::member(c),
        E::eqv(add_spec::<E>(a, c), add_spec::<E>(b, c)),
    ensures
        E::eqv(a, b),
{
    lemma_ring_basics::<E, C, I, F>(a);
    let z = zero_spec::<E>();
    let nc = neg_spec::<E>(c);
    E::lemma_negation_total(c);
    <E as GroupOperation<Addition, Commutative>>::lemma_inverse(c);
    <E as MonoidOperation<Addition, Commutative>>::lemma_identity(a);
    <E as MonoidOperation<Addition, Commutative>>::lemma_identity(b);
    <E as MonoidOperation<Addition, Commutative>>::lemma_associative(a, c, nc);
    <E as MonoidOperation<Addition, Commutative>>::lemma_associative(b, c, nc);
    let cnc = add_spec::<E>(c, nc);
    // (a + c) + (-c) = a + (c + (-c)) = a + 0 = a, and the same for b
    assert(E::eqv(add_spec::<E>(a, cnc), add_spec::<E>(a, z)));
    assert(E::eqv(add_spec::<E>(b, cnc), add_spec::<E>(b, z)));
    assert(E::eqv(add_spec::<E>(add_spec::<E>(a, c), nc), add_spec::<E>(add_spec::<E>(b, c), nc)));
    assert(E::eqv(add_spec::<E>(add_spec::<E>(a, c), nc), a));
    assert(E::eqv(add_spec::<E>(add_spec::<E>(b, c), nc), b));
}

/// In a ring, a·0 = 0 = 0·a.
pub proof fn lemma_mul_zero<E, C, I, F>(a: E::V) where
    E: RingOperation<C, I, F>,
    C: OperationCommutativity,
    I: Integrality,
    F: Factorability,

    requires
        E::member(a),
    ensures
        E::eqv(mul_spec::<E, C>(a, zero_spec::<E>()), zero_spec::<E>()),
        E::eqv(mul_spec::<E, C>(zero_spec::<E>(), a), zero_spec::<E>()),
{
    lemma_ring_basics::<E, C, I, F>(a);
    let z = zero_spec::<E>();
    <E as MonoidOperation<Addition, Commutative>>::lemma_identity(z);
    E::lemma_distributive(a, z, z);
    E::lemma_distributive(z, z, a);
    let az = mul_spec::<E, C>(a, z);
    let za = mul_spec::<E, C>(z, a);
    <E as MonoidOperation<Addition, Commutative>>::lemma_identity(az);
    <E as MonoidOperation<Addition, Commutative>>::lemma_identity(za);
    // a·0 + a·0 = a·(0 + 0) = a·0 = 0 + a·0
    assert(E::eqv(mul_spec::<E, C>(a, add_spec::<E>(z, z)), az));
    assert(E::eqv(add_spec::<E>(az, az), add_spec::<E>(z, az)));
    lemma_add_cancel::<E, C, I, F>(az, z, az);
    assert(E::eqv(mul_spec::<E, C>(add_spec::<E>(z, z), a), za));
    assert(E::eqv(add_spec::<E>(za, za), add_spec::<E>(z, za)));
    lemma_add_cancel::<E, C, I, F>(za, z, za);
}

/// In a ring, (−a)·b = −(a·b) = a·(−b).
pub proof fn lemma_neg_mul<E, C, I, F>(a: E::V, b: E::V) where
    E: RingOperation<C, I, F>,
    C: OperationCommutativity,
    I: Integrality,
    F: Factorability,

    requires
        E::member(a),
        E::member(b),
    ensures
        E::eqv(mul_spec::<E, C>(neg_spec::<E>(a), b), neg_spec::<E>(mul_spec::<E, C>(a, b))),
        E::eqv(mul_spec::<E, C>(a, neg_spec::<E>(b)), neg_spec::<E>(mul_spec::<E, C>(a, b))),
{
    lemma_ring_basics::<E, C, I, F>(a);
    let z = zero_spec::<E>();
    let na = neg_spec::<E>(a);
    let nb = neg_spec::<E>(b);
    let ab = mul_spec::<E, C>(a, b);
    E::lemma_negation_total(a);
    E::lemma_negation_total(b);
    E::lemma_negation_total(ab);
    <E as GroupOperation<Addition, Commutative>>::lemma_inverse(a);
    <E as GroupOperation<Addition, Commutative>>::lemma_inverse(b);
    lemma_mul_zero::<E, C, I, F>(a);
    lemma_mul_zero::<E, C, I, F>(b);
    // a·b + (−a)·b = (a + (−a))·b = 0·b = 0
    E::lemma_distributive(a, na, b);
    assert(E::eqv(mul_spec::<E, C>(add_spec::<E>(a, na), b), mul_spec::<E, C>(z, b)));
    assert(E::eqv(add_spec::<E>(ab, mul_spec::<E, C>(na, b)), z));
    lemma_inverse_unique::<E, Addition, Commutative>(ab, mul_spec::<E, C>(na, b));
    // a·b + a·(−b) = a·(b + (−b)) = a·0 = 0
    E::lemma_distributive(a, b, nb);
    assert(E::eqv(mul_spec::<E, C>(a, add_spec::<E>(b, nb)), mul_spec::<E, C>(a, z)));
    assert(E::eqv(add_spec::<E>(ab, mul_spec::<E, C>(a, nb)), z));
    lemma_inverse_unique::<E, Addition, Commutative>(ab, mul_spec::<E, C>(a, nb));
}

/// In an integral domain a nonzero factor can be cancelled: from
/// x·s = y·s and s ≠ 0 follows x = y.
pub proof fn lemma_mul_cancel<E, C, F>(x: E::V, y: E::V, s: E::V) where
    E: RingOperation<C, Integral, F>,
    C: OperationCommutativity,
    F: Factorability,

    requires
        E::is_integral_domain(),
        E::member(x),
        E::member(y),
        E::member(s),
        !E::eqv(s, zero_spec::<E>()),
        E::eqv(mul_spec::<E, C>(x, s), mul_spec::<E, C>(y, s)),
    ensures
        E::eqv(x, y),
{
    lemma_ring_basics::<E, C, Integral, F>(x);
    let z = zero_spec::<E>();
    let ny = neg_spec::<E>(y);
    let d = add_spec::<E>(x, ny);
    let xs = mul_spec::<E, C>(x, s);
    let ys = mul_spec::<E, C>(y, s);
    E::lemma_negation_total(y);
    E::lemma_negation_total(ys);
    <E as GroupOperation<Addition, Commutative>>::lemma_inverse(y);
    <E as GroupOperation<Addition, Commutative>>::lemma_inverse(ys);
    // (x − y)·s = x·s + (−y)·s = x·s − y·s = y·s − y·s = 0
    E::lemma_distributive(x, ny, s);
    lemma_neg_mul::<E, C, Integral, F>(y, s);
    assert(E::eqv(
        add_spec::<E>(xs, mul_spec::<E, C>(ny, s)),
        add_spec::<E>(ys, neg_spec::<E>(ys)),
    ));
    assert(E::eqv(mul_spec::<E, C>(d, s), z));
    if !E::eqv(d, z) {
        E::lemma_integral(d, s);
    }
    // x + (−y) = 0 = y + (−y)
    assert(E::eqv(add_spec::<E>(x, ny), add_spec::<E>(y, ny)));
    lemma_add_cancel::<E, C, Integral, F>(x, y, ny);
}

/// In a commutative ring the four factors of (a·b)·(c·d) can be paired
/// anew: as (a·c)·(b·d) and as (a·d)·(b·c).
pub proof fn lemma_four_factors<E, I, F>(a: E::V, b: E::V, c: E::V, d: E::V) where
    E: RingOperation<Commutative, I, F>,
    I: Integrality,
    F: Factorability,

    requires
        E::member(a),
        E::member(b),
        E::member(c),
        E::member(d),
    ensures
        E::eqv(
            mul_spec::<E, Commutative>(
                mul_spec::<E, Commutative>(a, b),
                mul_spec::<E, Commutative>(c, d),
            ),
            mul_spec::<E, Commutative>(
                mul_spec::<E, Commutative>(a, c),
                mul_spec::<E, Commutative>(b, d),
            ),
        ),
        E::eqv(
            mul_spec::<E, Commutative>(
                mul_spec::<E, Commutative>(a, b),
                mul_spec::<E, Commutative>(c, d),
            ),
            mul_spec::<E, Commutative>(
                mul_spec::<E, Commutative>(a, d),
                mul_spec::<E, Commutative>(b, c),
            ),
        ),
{
    lemma_ring_basics::<E, Commutative, I, F>(a);
    lemma_swap_inner::<E, I, F>(a, b, c, d);
    lemma_swap_inner::<E, I, F>(a, b, d, c);
    <E as MonoidOperation<Multiplication, Commutative>>::lemma_commutative(c, d);
    let ab = mul_spec::<E, Commutative>(a, b);
    let cd = mul_spec::<E, Commutative>(c, d);
    let dc = mul_spec::<E, Commutative>(d, c);
    assert(E::eqv(mul_spec::<E, Commutative>(ab, cd), mul_spec::<E, Commutative>(ab, dc)));
}

/// (a·b)·(c·d) = (a·c)·(b·d) in a commutative ring.
proof fn lemma_swap_inner<E, I, F>(a: E::V, b: E::V, c: E::V, d: E::V) where
    E: RingOperation<Commutative, I, F>,
    I: Integrality,
    F: Factorability,

    requires
        E::member(a),
        E::member(b),
        E::member(c),
        E::member(d),
    ensures
        E::eqv(
            mul_spec::<E, Commutative>(
                mul_spec::<E, Commutative>(a, b),
                mul_spec::<E, Commutative>(c, d),
            ),
            mul_spec::<E, Commutative>(
                mul_spec::<E, Commutative>(a, c),
                mul_spec::<E, Commutative>(b, d),
            ),
        ),
{
    lemma_ring_basics::<E, Commutative, I, F>(a);
    let cd = mul_spec::<E, Commutative>(c, d);
    let bd = mul_spec::<E, Commutative>(b, d);
    let bc = mul_spec::<E, Commutative>(b, c);
    let cb = mul_spec::<E, Commutative>(c, b);
    // (a·b)·(c·d) = a·(b·(c·d)) = a·((b·c)·d) = a·((c·b)·d) = a·(c·(b·d))
    // = (a·c)·(b·d)
    <E as MonoidOperation<Multiplication, Commutative>>::lemma_associative(a, b, cd);
    <E as MonoidOperation<Multiplication, Commutative>>::lemma_associative(b, c, d);
    <E as MonoidOperation<Multiplication, Commutative>>::lemma_commutative(b, c);
    <E as MonoidOperation<Multiplication, Commutative>>::lemma_associative(c, b, d);
    <E as MonoidOperation<Multiplication, Commutative>>::lemma_associative(a, c, bd);
    assert(E::eqv(mul_spec::<E, Commutative>(bc, d), mul_spec::<E, Commutative>(cb, d)));
    assert(E::eqv(mul_spec::<E, Commutative>(b, cd), mul_spec::<E, Commutative>(c, bd)));
    assert(E::eqv(
        mul_spec::<E, Commutative>(a, mul_spec::<E, Commutative>(b, cd)),
        mul_spec::<E, Commutative>(a, mul_spec::<E, Commutative>(c, bd)),
    ));
}

/// In a commutative ring, n·(q·d) = d·(q·n).
pub proof fn lemma_three_factors<E, I, F>(n: E::V, q: E::V, d: E::V) where
    E: RingOperation<Commutative, I, F>,
    I: Integrality,
    F: Factorability,

    requires
        E::member(n),
        E::member(q),
        E::member(d),
    ensures
        E::eqv(
            mul_spec::<E, Commutative>(n, mul_spec::<E, Commutative>(q, d)),
            mul_spec::<E, Commutative>(d, mul_spec::<E, Commutative>(q, n)),
        ),
{
    lemma_ring_basics::<E, Commutative, I, F>(n);
    let qd = mul_spec::<E, Commutative>(q, d);
    let qn = mul_spec::<E, Commutative>(q, n);
    let nq = mul_spec::<E, Commutative>(n, q);
    // n·(q·d) = (n·q)·d = (q·n)·d = d·(q·n)
    <E as MonoidOperation<Multiplication, Commutative>>::lemma_associative(n, q, d);
    <E as MonoidOperation<Multiplication, Commutative>>::lemma_commutative(n, q);
    <E as MonoidOperation<Multiplication, Commutative>>::lemma_commutative(qn, d);
    assert(E::eqv(mul_spec::<E, Commutative>(nq, d), mul_spec::<E, Commutative>(qn, d)));
}

/// In a commutative ring, (a·b)·(c·d) = c·(a·(b·d)).
pub proof fn lemma_pull_third<E, I, F>(a: E::V, b: E::V, c: E::V, d: E::V) where
    E: RingOperation<Commutative, I, F>,
    I: Integrality,
    F: Factorability,

    requires
        E::member(a),
        E::member(b),
        E::member(c),
        E::member(d),
    ensures
        E::eqv(
            mul_spec::<E, Commutative>(
                mul_spec::<E, Commutative>(a, b),
                mul_spec::<E, Commutative>(c, d),
            ),
            mul_spec::<E, Commutative>(
                c,
                mul_spec::<E, Commutative>(a, mul_spec::<E, Commutative>(b, d)),
            ),
        ),
{
    lemma_ring_basics::<E, Commutative, I, F>(a);
    let bd = mul_spec::<E, Commutative>(b, d);
    let ac = mul_spec::<E, Commutative>(a, c);
    let ca = mul_spec::<E, Commutative>(c, a);
    // (a·b)·(c·d) = (a·c)·(b·d) = (c·a)·(b·d) = c·(a·(b·d))
    lemma_swap_inner::<E, I, F>(a, b, c, d);
    <E as MonoidOperation<Multiplication, Commutative>>::lemma_commutative(a, c);
    <E as MonoidOperation<Multiplication, Commutative>>::lemma_associative(c, a, bd);
    assert(E::eqv(mul_spec::<E, Commutative>(ac, bd), mul_spec::<E, Commutative>(ca, bd)));
}

/// In a commutative ring, (a·b)·(c·d) = d·((a·c)·b).
pub proof fn lemma_pull_fourth<E, I, F>(a: E::V, b: E::V, c: E::V, d: E::V) where
    E: RingOperation<Commutative, I, F>,
    I: Integrality,
    F: Factorability,

    requires
        E::member(a),
        E::member(b),
        E::member(c),
        E::member(d),
    ensures
        E::eqv(
            mul_spec::<E, Commutative>(
                mul_spec::<E, Commutative>(a, b),
                mul_spec::<E, Commutative>(c, d),
            ),
            mul_spec::<E, Commutative>(
                d,
                mul_spec::<E, Commutative>(mul_spec::<E, Commutative>(a, c), b),
            ),
        ),
{
    lemma_ring_basics::<E, Commutative, I, F>(a);
    let ac = mul_spec::<E, Commutative>(a, c);
    let bd = mul_spec::<E, Commutative>(b, d);
    let acb = mul_spec::<E, Commutative>(ac, b);
    // (a·b)·(c·d) = (a·c)·(b·d) = ((a·c)·b)·d = d·((a·c)·b)
    lemma_swap_inner::<E, I, F>(a, b, c, d);
    <E as MonoidOperation<Multiplication, Commutative>>::lemma_associative(ac, b, d);
    <E as MonoidOperation<Multiplication, Commutative>>::lemma_commutative(acb, d);
}

} // verus!
