//! The fractions over an integral domain are a field.
use crate::fields::fraction_field::{
    fraction_product, fraction_sum, is_fraction, same_fraction, FractionField,
};
use crate::fields::FieldOperation;
use crate::groups::GroupOperation;
use crate::monoid::MonoidOperation;
use crate::ops::{Addition, Commutative, Multiplication};
use crate::rings::theory::{
    lemma_four_factors, lemma_mul_cancel, lemma_mul_zero, lemma_neg_mul, lemma_pull_fourth,
    lemma_pull_third, lemma_ring_basics, lemma_three_factors,
};
use crate::rings::{
    add_spec, mul_spec, neg_spec, one_spec, zero_spec, Factorability, Integral, Integrality,
    RingOperation,
};
use vstd::prelude::*;

verus! {

/// A fraction is zero exactly when its numerator is.
proof fn lemma_zero_fraction<E, F>(x: (E::V, E::V)) where
    E: RingOperation<Commutative, Integral, F>,
    F: Factorability,

    requires
        is_fraction::<E, F>(x),
    ensures
        same_fraction::<E, F>(x, (zero_spec::<E>(), one_spec::<E>())) <==> E::eqv(
            x.0,
            zero_spec::<E>(),
        ),
{
    lemma_ring_basics::<E, Commutative, Integral, F>(x.0);
    <E as MonoidOperation<Multiplication, Commutative>>::lemma_identity(x.0);
    lemma_mul_zero::<E, Commutative, Integral, F>(x.1);
    let left = mul_spec::<E, Commutative>(x.0, one_spec::<E>());
    let right = mul_spec::<E, Commutative>(x.1, zero_spec::<E>());
    assert(E::eqv(left, x.0));
    assert(E::eqv(right, zero_spec::<E>()));
}

/// Fractions with equal numerators and equal denominators are equal.
proof fn lemma_same_parts<E, F>(a: (E::V, E::V), b: (E::V, E::V)) where
    E: RingOperation<Commutative, Integral, F>,
    F: Factorability,

    requires
        E::member(a.0),
        E::member(a.1),
        E::member(b.0),
        E::member(b.1),
        E::eqv(a.0, b.0),
        E::eqv(a.1, b.1),
    ensures
        same_fraction::<E, F>(a, b),
{
    lemma_ring_basics::<E, Commutative, Integral, F>(a.0);
    <E as MonoidOperation<Multiplication, Commutative>>::lemma_commutative(b.0, a.1);
    let x = mul_spec::<E, Commutative>(a.0, b.1);
    let y = mul_spec::<E, Commutative>(b.0, a.1);
    let w = mul_spec::<E, Commutative>(a.1, b.0);
    assert(E::eqv(x, y));
    assert(E::eqv(y, w));
}

/// Cross-multiplication is an equivalence, and sums and products respect
/// it.
proof fn lemma_fraction_equivalence<E, F>(a: (E::V, E::V), b: (E::V, E::V), c: (E::V, E::V)) where
    E: RingOperation<Commutative, Integral, F>,
    F: Factorability,

    requires
        is_fraction::<E, F>(a),
        is_fraction::<E, F>(b),
        is_fraction::<E, F>(c),
    ensures
        same_fraction::<E, F>(a, a),
        same_fraction::<E, F>(a, b) ==> same_fraction::<E, F>(b, a),
        same_fraction::<E, F>(a, b) && same_fraction::<E, F>(b, c) ==> same_fraction::<E, F>(a, c),
{
    let (p, q) = a;
    let (r, s) = b;
    let (t, u) = c;
    lemma_ring_basics::<E, Commutative, Integral, F>(p);
    <E as MonoidOperation<Multiplication, Commutative>>::lemma_commutative(p, q);
    <E as MonoidOperation<Multiplication, Commutative>>::lemma_commutative(r, q);
    <E as MonoidOperation<Multiplication, Commutative>>::lemma_commutative(s, p);
    if same_fraction::<E, F>(a, b) {
        let ps = mul_spec::<E, Commutative>(p, s);
        let qr = mul_spec::<E, Commutative>(q, r);
        let rq = mul_spec::<E, Commutative>(r, q);
        let sp = mul_spec::<E, Commutative>(s, p);
        assert(E::eqv(rq, qr));
        assert(E::eqv(qr, ps));
        assert(E::eqv(ps, sp));
        assert(E::eqv(rq, sp));
    }
    if same_fraction::<E, F>(a, b) && same_fraction::<E, F>(b, c) {
        let pu = mul_spec::<E, Commutative>(p, u);
        let qt = mul_spec::<E, Commutative>(q, t);
        let ps = mul_spec::<E, Commutative>(p, s);
        let qr = mul_spec::<E, Commutative>(q, r);
        let ru = mul_spec::<E, Commutative>(r, u);
        let st = mul_spec::<E, Commutative>(s, t);
        let us = mul_spec::<E, Commutative>(u, s);
        let su = mul_spec::<E, Commutative>(s, u);
        let ts = mul_spec::<E, Commutative>(t, s);
        // (p·u)·s = p·(u·s) = p·(s·u) = (p·s)·u
        <E as MonoidOperation<Multiplication, Commutative>>::lemma_associative(p, u, s);
        <E as MonoidOperation<Multiplication, Commutative>>::lemma_commutative(u, s);
        <E as MonoidOperation<Multiplication, Commutative>>::lemma_associative(p, s, u);
        assert(E::eqv(mul_spec::<E, Commutative>(p, us), mul_spec::<E, Commutative>(p, su)));
        assert(E::eqv(mul_spec::<E, Commutative>(pu, s), mul_spec::<E, Commutative>(ps, u)));
        // (p·s)·u = (q·r)·u = q·(r·u) = q·(s·t)
        <E as MonoidOperation<Multiplication, Commutative>>::lemma_associative(q, r, u);
        assert(E::eqv(mul_spec::<E, Commutative>(ps, u), mul_spec::<E, Commutative>(qr, u)));
        assert(E::eqv(mul_spec::<E, Commutative>(q, ru), mul_spec::<E, Commutative>(q, st)));
        // q·(s·t) = q·(t·s) = (q·t)·s
        <E as MonoidOperation<Multiplication, Commutative>>::lemma_commutative(s, t);
        <E as MonoidOperation<Multiplication, Commutative>>::lemma_associative(q, t, s);
        assert(E::eqv(mul_spec::<E, Commutative>(q, st), mul_spec::<E, Commutative>(q, ts)));
        assert(E::eqv(mul_spec::<E, Commutative>(pu, s), mul_spec::<E, Commutative>(qt, s)));
        lemma_mul_cancel::<E, Commutative, F>(pu, qt, s);
    }
}

/// The sum and the product of two fractions are fractions.
proof fn lemma_fraction_closed<E, F>(a: (E::V, E::V), b: (E::V, E::V)) where
    E: RingOperation<Commutative, Integral, F>,
    F: Factorability,

    requires
        is_fraction::<E, F>(a),
        is_fraction::<E, F>(b),
    ensures
        is_fraction::<E, F>(fraction_sum::<E, F>(a, b)),
        is_fraction::<E, F>(fraction_product::<E, F>(a, b)),
{
    lemma_ring_basics::<E, Commutative, Integral, F>(a.0);
    E::lemma_integral(a.1, b.1);
}

/// Equal fractions have equal sums.
proof fn lemma_sum_congruent<E, F>(
    a1: (E::V, E::V),
    a2: (E::V, E::V),
    b1: (E::V, E::V),
    b2: (E::V, E::V),
) where E: RingOperation<Commutative, Integral, F>, F: Factorability
    requires
        is_fraction::<E, F>(a1),
        is_fraction::<E, F>(a2),
        is_fraction::<E, F>(b1),
        is_fraction::<E, F>(b2),
        same_fraction::<E, F>(a1, a2),
        same_fraction::<E, F>(b1, b2),
    ensures
        same_fraction::<E, F>(fraction_sum::<E, F>(a1, b1), fraction_sum::<E, F>(a2, b2)),
{
    let (pa, qa) = a1;
    let (pb, qb) = a2;
    let (ra, sa) = b1;
    let (rb, sb) = b2;
    lemma_ring_basics::<E, Commutative, Integral, F>(pa);
    let x = mul_spec::<E, Commutative>(pa, sa);
    let y = mul_spec::<E, Commutative>(ra, qa);
    let d2 = mul_spec::<E, Commutative>(qb, sb);
    let d1 = mul_spec::<E, Commutative>(qa, sa);
    let x2 = mul_spec::<E, Commutative>(pb, sb);
    let y2 = mul_spec::<E, Commutative>(rb, qb);
    // (x + y)·d2 = x·d2 + y·d2, and d1·(x2 + y2) = d1·x2 + d1·y2
    E::lemma_distributive(x, y, d2);
    E::lemma_distributive(d1, x2, y2);
    // x·d2 = (pa·qb)·(sa·sb), and d1·x2 = (qa·pb)·(sa·sb)
    lemma_four_factors::<E, Integral, F>(pa, sa, qb, sb);
    lemma_four_factors::<E, Integral, F>(qa, sa, pb, sb);
    let ss = mul_spec::<E, Commutative>(sa, sb);
    let first = mul_spec::<E, Commutative>(mul_spec::<E, Commutative>(pa, qb), ss);
    let first2 = mul_spec::<E, Commutative>(mul_spec::<E, Commutative>(qa, pb), ss);
    assert(E::eqv(first, first2));
    assert(E::eqv(mul_spec::<E, Commutative>(x, d2), mul_spec::<E, Commutative>(d1, x2)));
    // y·d2 = (ra·sb)·(qa·qb), and d1·y2 = (sa·rb)·(qa·qb)
    lemma_four_factors::<E, Integral, F>(ra, qa, qb, sb);
    <E as MonoidOperation<Multiplication, Commutative>>::lemma_commutative(qa, sa);
    lemma_four_factors::<E, Integral, F>(sa, qa, rb, qb);
    let qq = mul_spec::<E, Commutative>(qa, qb);
    let second = mul_spec::<E, Commutative>(mul_spec::<E, Commutative>(ra, sb), qq);
    let second2 = mul_spec::<E, Commutative>(mul_spec::<E, Commutative>(sa, rb), qq);
    let swapped = mul_spec::<E, Commutative>(mul_spec::<E, Commutative>(sa, qa), y2);
    assert(E::eqv(second, second2));
    assert(E::eqv(mul_spec::<E, Commutative>(d1, y2), swapped));
    assert(E::eqv(mul_spec::<E, Commutative>(y, d2), mul_spec::<E, Commutative>(d1, y2)));
    assert(E::eqv(
        add_spec::<E>(mul_spec::<E, Commutative>(x, d2), mul_spec::<E, Commutative>(y, d2)),
        add_spec::<E>(mul_spec::<E, Commutative>(d1, x2), mul_spec::<E, Commutative>(d1, y2)),
    ));
}

/// Equal fractions have equal products.
proof fn lemma_product_congruent<E, F>(
    a1: (E::V, E::V),
    a2: (E::V, E::V),
    b1: (E::V, E::V),
    b2: (E::V, E::V),
) where E: RingOperation<Commutative, Integral, F>, F: Factorability
    requires
        is_fraction::<E, F>(a1),
        is_fraction::<E, F>(a2),
        is_fraction::<E, F>(b1),
        is_fraction::<E, F>(b2),
        same_fraction::<E, F>(a1, a2),
        same_fraction::<E, F>(b1, b2),
    ensures
        same_fraction::<E, F>(fraction_product::<E, F>(a1, b1), fraction_product::<E, F>(a2, b2)),
{
    let (pa, qa) = a1;
    let (pb, qb) = a2;
    let (ra, sa) = b1;
    let (rb, sb) = b2;
    lemma_ring_basics::<E, Commutative, Integral, F>(pa);
    // (pa·ra)·(qb·sb) = (pa·qb)·(ra·sb) = (qa·pb)·(sa·rb) = (qa·sa)·(pb·rb)
    lemma_four_factors::<E, Integral, F>(pa, ra, qb, sb);
    lemma_four_factors::<E, Integral, F>(qa, sa, pb, rb);
    let left = mul_spec::<E, Commutative>(
        mul_spec::<E, Commutative>(pa, qb),
        mul_spec::<E, Commutative>(ra, sb),
    );
    let right = mul_spec::<E, Commutative>(
        mul_spec::<E, Commutative>(qa, pb),
        mul_spec::<E, Commutative>(sa, rb),
    );
    assert(E::eqv(left, right));
}

/// The sum of fractions is associative.
proof fn lemma_sum_associative<E, F>(a: (E::V, E::V), b: (E::V, E::V), c: (E::V, E::V)) where
    E: RingOperation<Commutative, Integral, F>,
    F: Factorability,

    requires
        is_fraction::<E, F>(a),
        is_fraction::<E, F>(b),
        is_fraction::<E, F>(c),
    ensures
        same_fraction::<E, F>(
            fraction_sum::<E, F>(fraction_sum::<E, F>(a, b), c),
            fraction_sum::<E, F>(a, fraction_sum::<E, F>(b, c)),
        ),
{
    let (p, q) = a;
    let (r, s) = b;
    let (t, u) = c;
    lemma_ring_basics::<E, Commutative, Integral, F>(p);
    let ps = mul_spec::<E, Commutative>(p, s);
    let rq = mul_spec::<E, Commutative>(r, q);
    let qs = mul_spec::<E, Commutative>(q, s);
    let ru = mul_spec::<E, Commutative>(r, u);
    let ts = mul_spec::<E, Commutative>(t, s);
    let su = mul_spec::<E, Commutative>(s, u);
    let left = fraction_sum::<E, F>(fraction_sum::<E, F>(a, b), c);
    let right = fraction_sum::<E, F>(a, fraction_sum::<E, F>(b, c));
    // the denominators: (q·s)·u = q·(s·u)
    <E as MonoidOperation<Multiplication, Commutative>>::lemma_associative(q, s, u);
    // the numerators, term by term
    let psu = mul_spec::<E, Commutative>(ps, u);
    let rqu = mul_spec::<E, Commutative>(rq, u);
    let tqs = mul_spec::<E, Commutative>(t, qs);
    let p_su = mul_spec::<E, Commutative>(p, su);
    let ruq = mul_spec::<E, Commutative>(ru, q);
    let tsq = mul_spec::<E, Commutative>(ts, q);
    E::lemma_distributive(ps, rq, u);
    E::lemma_distributive(ru, ts, q);
    <E as MonoidOperation<Addition, Commutative>>::lemma_associative(psu, rqu, tqs);
    // (p·s)·u = p·(s·u)
    <E as MonoidOperation<Multiplication, Commutative>>::lemma_associative(p, s, u);
    // (r·q)·u = r·(q·u) = r·(u·q) = (r·u)·q
    <E as MonoidOperation<Multiplication, Commutative>>::lemma_associative(r, q, u);
    <E as MonoidOperation<Multiplication, Commutative>>::lemma_commutative(q, u);
    <E as MonoidOperation<Multiplication, Commutative>>::lemma_associative(r, u, q);
    let qu = mul_spec::<E, Commutative>(q, u);
    let uq = mul_spec::<E, Commutative>(u, q);
    assert(E::eqv(mul_spec::<E, Commutative>(r, qu), mul_spec::<E, Commutative>(r, uq)));
    assert(E::eqv(rqu, ruq));
    // t·(q·s) = t·(s·q) = (t·s)·q
    <E as MonoidOperation<Multiplication, Commutative>>::lemma_commutative(q, s);
    <E as MonoidOperation<Multiplication, Commutative>>::lemma_associative(t, s, q);
    let sq = mul_spec::<E, Commutative>(s, q);
    assert(E::eqv(tqs, mul_spec::<E, Commutative>(t, sq)));
    assert(E::eqv(tqs, tsq));
    assert(E::eqv(psu, p_su));
    let n1 = add_spec::<E>(psu, add_spec::<E>(rqu, tqs));
    let n2 = add_spec::<E>(p_su, add_spec::<E>(ruq, tsq));
    assert(E::eqv(add_spec::<E>(rqu, tqs), add_spec::<E>(ruq, tsq)));
    assert(E::eqv(n1, n2));
    assert(E::eqv(left.0, add_spec::<E>(add_spec::<E>(psu, rqu), tqs)));
    assert(E::eqv(left.0, n1));
    assert(E::eqv(right.0, n2));
    assert(E::eqv(left.0, right.0));
    lemma_same_parts::<E, F>(left, right);
}

/// The sum of fractions is commutative.
proof fn lemma_sum_commutative<E, F>(a: (E::V, E::V), b: (E::V, E::V)) where
    E: RingOperation<Commutative, Integral, F>,
    F: Factorability,

    requires
        is_fraction::<E, F>(a),
        is_fraction::<E, F>(b),
    ensures
        same_fraction::<E, F>(fraction_sum::<E, F>(a, b), fraction_sum::<E, F>(b, a)),
{
    lemma_ring_basics::<E, Commutative, Integral, F>(a.0);
    let x = mul_spec::<E, Commutative>(a.0, b.1);
    let y = mul_spec::<E, Commutative>(b.0, a.1);
    <E as MonoidOperation<Addition, Commutative>>::lemma_commutative(x, y);
    <E as MonoidOperation<Multiplication, Commutative>>::lemma_commutative(a.1, b.1);
    lemma_same_parts::<E, F>(fraction_sum::<E, F>(a, b), fraction_sum::<E, F>(b, a));
}

/// 0/1 is neutral for the sum of fractions.
proof fn lemma_sum_identity<E, F>(x: (E::V, E::V)) where
    E: RingOperation<Commutative, Integral, F>,
    F: Factorability,

    requires
        is_fraction::<E, F>(x),
    ensures
        is_fraction::<E, F>((zero_spec::<E>(), one_spec::<E>())),
        same_fraction::<E, F>(fraction_sum::<E, F>((zero_spec::<E>(), one_spec::<E>()), x), x),
        same_fraction::<E, F>(fraction_sum::<E, F>(x, (zero_spec::<E>(), one_spec::<E>())), x),
{
    let (p, q) = x;
    let z = zero_spec::<E>();
    let o = one_spec::<E>();
    lemma_ring_basics::<E, Commutative, Integral, F>(p);
    E::lemma_nontrivial();
    lemma_mul_zero::<E, Commutative, Integral, F>(q);
    <E as MonoidOperation<Multiplication, Commutative>>::lemma_identity(p);
    <E as MonoidOperation<Multiplication, Commutative>>::lemma_identity(q);
    <E as MonoidOperation<Addition, Commutative>>::lemma_identity(p);
    let zq = mul_spec::<E, Commutative>(z, q);
    let po = mul_spec::<E, Commutative>(p, o);
    assert(E::eqv(add_spec::<E>(zq, po), add_spec::<E>(z, p)));
    assert(E::eqv(add_spec::<E>(zq, po), p));
    assert(E::eqv(add_spec::<E>(po, zq), add_spec::<E>(p, z)));
    assert(E::eqv(add_spec::<E>(po, zq), p));
    lemma_same_parts::<E, F>(fraction_sum::<E, F>((z, o), x), x);
    lemma_same_parts::<E, F>(fraction_sum::<E, F>(x, (z, o)), x);
}

/// (−p)/q is the negative of p/q.
proof fn lemma_sum_inverse<E, F>(x: (E::V, E::V)) where
    E: RingOperation<Commutative, Integral, F>,
    F: Factorability,

    requires
        is_fraction::<E, F>(x),
    ensures
        is_fraction::<E, F>((neg_spec::<E>(x.0), x.1)),
        same_fraction::<E, F>(
            fraction_sum::<E, F>(x, (neg_spec::<E>(x.0), x.1)),
            (zero_spec::<E>(), one_spec::<E>()),
        ),
        same_fraction::<E, F>(
            fraction_sum::<E, F>((neg_spec::<E>(x.0), x.1), x),
            (zero_spec::<E>(), one_spec::<E>()),
        ),
{
    let (p, q) = x;
    let z = zero_spec::<E>();
    let np = neg_spec::<E>(p);
    lemma_ring_basics::<E, Commutative, Integral, F>(p);
    E::lemma_nontrivial();
    let pq = mul_spec::<E, Commutative>(p, q);
    let npq = mul_spec::<E, Commutative>(np, q);
    lemma_neg_mul::<E, Commutative, Integral, F>(p, q);
    E::lemma_negation_total(pq);
    <E as GroupOperation<Addition, Commutative>>::lemma_inverse(pq);
    assert(E::eqv(add_spec::<E>(pq, npq), add_spec::<E>(pq, neg_spec::<E>(pq))));
    assert(E::eqv(add_spec::<E>(pq, npq), z));
    assert(E::eqv(add_spec::<E>(npq, pq), add_spec::<E>(neg_spec::<E>(pq), pq)));
    assert(E::eqv(add_spec::<E>(npq, pq), z));
    lemma_fraction_closed::<E, F>(x, (np, q));
    lemma_fraction_closed::<E, F>((np, q), x);
    lemma_zero_fraction::<E, F>(fraction_sum::<E, F>(x, (np, q)));
    lemma_zero_fraction::<E, F>(fraction_sum::<E, F>((np, q), x));
}

/// The product of fractions is associative and commutative.
proof fn lemma_product_associative<E, F>(a: (E::V, E::V), b: (E::V, E::V), c: (E::V, E::V)) where
    E: RingOperation<Commutative, Integral, F>,
    F: Factorability,

    requires
        is_fraction::<E, F>(a),
        is_fraction::<E, F>(b),
        is_fraction::<E, F>(c),
    ensures
        same_fraction::<E, F>(
            fraction_product::<E, F>(fraction_product::<E, F>(a, b), c),
            fraction_product::<E, F>(a, fraction_product::<E, F>(b, c)),
        ),
        same_fraction::<E, F>(fraction_product::<E, F>(a, b), fraction_product::<E, F>(b, a)),
{
    lemma_ring_basics::<E, Commutative, Integral, F>(a.0);
    <E as MonoidOperation<Multiplication, Commutative>>::lemma_associative(a.0, b.0, c.0);
    <E as MonoidOperation<Multiplication, Commutative>>::lemma_associative(a.1, b.1, c.1);
    <E as MonoidOperation<Multiplication, Commutative>>::lemma_commutative(a.0, b.0);
    <E as MonoidOperation<Multiplication, Commutative>>::lemma_commutative(a.1, b.1);
    lemma_same_parts::<E, F>(
        fraction_product::<E, F>(fraction_product::<E, F>(a, b), c),
        fraction_product::<E, F>(a, fraction_product::<E, F>(b, c)),
    );
    lemma_same_parts::<E, F>(fraction_product::<E, F>(a, b), fraction_product::<E, F>(b, a));
}

/// 1/1 is neutral for the product of fractions.
proof fn lemma_product_identity<E, F>(x: (E::V, E::V)) where
    E: RingOperation<Commutative, Integral, F>,
    F: Factorability,

    requires
        is_fraction::<E, F>(x),
    ensures
        is_fraction::<E, F>((one_spec::<E>(), one_spec::<E>())),
        same_fraction::<E, F>(fraction_product::<E, F>((one_spec::<E>(), one_spec::<E>()), x), x),
        same_fraction::<E, F>(fraction_product::<E, F>(x, (one_spec::<E>(), one_spec::<E>())), x),
{
    let o = one_spec::<E>();
    lemma_ring_basics::<E, Commutative, Integral, F>(x.0);
    E::lemma_nontrivial();
    <E as MonoidOperation<Multiplication, Commutative>>::lemma_identity(x.0);
    <E as MonoidOperation<Multiplication, Commutative>>::lemma_identity(x.1);
    lemma_same_parts::<E, F>(fraction_product::<E, F>((o, o), x), x);
    lemma_same_parts::<E, F>(fraction_product::<E, F>(x, (o, o)), x);
}

/// q/p is the inverse of p/q, where p is not zero.
proof fn lemma_product_inverse<E, F>(x: (E::V, E::V)) where
    E: RingOperation<Commutative, Integral, F>,
    F: Factorability,

    requires
        is_fraction::<E, F>(x),
        !E::eqv(x.0, zero_spec::<E>()),
    ensures
        same_fraction::<E, F>(
            fraction_product::<E, F>(x, (x.1, x.0)),
            (one_spec::<E>(), one_spec::<E>()),
        ),
        same_fraction::<E, F>(
            fraction_product::<E, F>((x.1, x.0), x),
            (one_spec::<E>(), one_spec::<E>()),
        ),
{
    let (p, q) = x;
    let o = one_spec::<E>();
    lemma_ring_basics::<E, Commutative, Integral, F>(p);
    <E as MonoidOperation<Multiplication, Commutative>>::lemma_commutative(p, q);
    let pq = mul_spec::<E, Commutative>(p, q);
    let qp = mul_spec::<E, Commutative>(q, p);
    assert(E::eqv(mul_spec::<E, Commutative>(pq, o), mul_spec::<E, Commutative>(qp, o)));
    assert(E::eqv(mul_spec::<E, Commutative>(qp, o), mul_spec::<E, Commutative>(pq, o)));
}

/// The product of fractions distributes over their sum, on both sides.
proof fn lemma_fractions_distribute<E, F>(a: (E::V, E::V), b: (E::V, E::V), c: (E::V, E::V)) where
    E: RingOperation<Commutative, Integral, F>,
    F: Factorability,

    requires
        is_fraction::<E, F>(a),
        is_fraction::<E, F>(b),
        is_fraction::<E, F>(c),
    ensures
        same_fraction::<E, F>(
            fraction_product::<E, F>(a, fraction_sum::<E, F>(b, c)),
            fraction_sum::<E, F>(fraction_product::<E, F>(a, b), fraction_product::<E, F>(a, c)),
        ),
        same_fraction::<E, F>(
            fraction_product::<E, F>(fraction_sum::<E, F>(a, b), c),
            fraction_sum::<E, F>(fraction_product::<E, F>(a, c), fraction_product::<E, F>(b, c)),
        ),
{
    lemma_left_distributive::<E, F>(a, b, c);
    lemma_right_distributive::<E, F>(a, b, c);
}

/// a·(b + c) = a·b + a·c for fractions.
proof fn lemma_left_distributive<E, F>(a: (E::V, E::V), b: (E::V, E::V), c: (E::V, E::V)) where
    E: RingOperation<Commutative, Integral, F>,
    F: Factorability,

    requires
        is_fraction::<E, F>(a),
        is_fraction::<E, F>(b),
        is_fraction::<E, F>(c),
    ensures
        same_fraction::<E, F>(
            fraction_product::<E, F>(a, fraction_sum::<E, F>(b, c)),
            fraction_sum::<E, F>(fraction_product::<E, F>(a, b), fraction_product::<E, F>(a, c)),
        ),
{
    let (p, q) = a;
    let (r, s) = b;
    let (t, u) = c;
    lemma_ring_basics::<E, Commutative, Integral, F>(p);
    let ru = mul_spec::<E, Commutative>(r, u);
    let ts = mul_spec::<E, Commutative>(t, s);
    let su = mul_spec::<E, Commutative>(s, u);
    // the left side is n/d
    let n = mul_spec::<E, Commutative>(p, add_spec::<E>(ru, ts));
    let d = mul_spec::<E, Commutative>(q, su);
    // the right side is n2/d2, with n2 = q·n and d2 = q·d
    let pr = mul_spec::<E, Commutative>(p, r);
    let pt = mul_spec::<E, Commutative>(p, t);
    let qs = mul_spec::<E, Commutative>(q, s);
    let qu = mul_spec::<E, Commutative>(q, u);
    let n2 = add_spec::<E>(mul_spec::<E, Commutative>(pr, qu), mul_spec::<E, Commutative>(pt, qs));
    let d2 = mul_spec::<E, Commutative>(qs, qu);
    let pru = mul_spec::<E, Commutative>(p, ru);
    let pts = mul_spec::<E, Commutative>(p, ts);
    lemma_pull_third::<E, Integral, F>(p, r, q, u);
    lemma_pull_third::<E, Integral, F>(p, t, q, s);
    lemma_pull_third::<E, Integral, F>(q, s, q, u);
    E::lemma_distributive(p, ru, ts);
    E::lemma_distributive(q, pru, pts);
    assert(E::eqv(n, add_spec::<E>(pru, pts)));
    assert(E::eqv(
        mul_spec::<E, Commutative>(q, n),
        mul_spec::<E, Commutative>(q, add_spec::<E>(pru, pts)),
    ));
    assert(E::eqv(
        n2,
        add_spec::<E>(mul_spec::<E, Commutative>(q, pru), mul_spec::<E, Commutative>(q, pts)),
    ));
    assert(E::eqv(n2, mul_spec::<E, Commutative>(q, n)));
    assert(E::eqv(d2, mul_spec::<E, Commutative>(q, d)));
    // n·d2 = n·(q·d) = d·(q·n) = d·n2
    lemma_three_factors::<E, Integral, F>(n, q, d);
    assert(E::eqv(
        mul_spec::<E, Commutative>(n, d2),
        mul_spec::<E, Commutative>(n, mul_spec::<E, Commutative>(q, d)),
    ));
    assert(E::eqv(
        mul_spec::<E, Commutative>(d, mul_spec::<E, Commutative>(q, n)),
        mul_spec::<E, Commutative>(d, n2),
    ));
}

/// (a + b)·c = a·c + b·c for fractions.
proof fn lemma_right_distributive<E, F>(a: (E::V, E::V), b: (E::V, E::V), c: (E::V, E::V)) where
    E: RingOperation<Commutative, Integral, F>,
    F: Factorability,

    requires
        is_fraction::<E, F>(a),
        is_fraction::<E, F>(b),
        is_fraction::<E, F>(c),
    ensures
        same_fraction::<E, F>(
            fraction_product::<E, F>(fraction_sum::<E, F>(a, b), c),
            fraction_sum::<E, F>(fraction_product::<E, F>(a, c), fraction_product::<E, F>(b, c)),
        ),
{
    let (p, q) = a;
    let (r, s) = b;
    let (t, u) = c;
    lemma_ring_basics::<E, Commutative, Integral, F>(p);
    let ps = mul_spec::<E, Commutative>(p, s);
    let rq = mul_spec::<E, Commutative>(r, q);
    let qs = mul_spec::<E, Commutative>(q, s);
    // the left side is n/d
    let n = mul_spec::<E, Commutative>(add_spec::<E>(ps, rq), t);
    let d = mul_spec::<E, Commutative>(qs, u);
    // the right side is n2/d2, with n2 = u·n and d2 = u·d
    let pt = mul_spec::<E, Commutative>(p, t);
    let rt = mul_spec::<E, Commutative>(r, t);
    let qu = mul_spec::<E, Commutative>(q, u);
    let su = mul_spec::<E, Commutative>(s, u);
    let n2 = add_spec::<E>(mul_spec::<E, Commutative>(pt, su), mul_spec::<E, Commutative>(rt, qu));
    let d2 = mul_spec::<E, Commutative>(qu, su);
    let pst = mul_spec::<E, Commutative>(ps, t);
    let rqt = mul_spec::<E, Commutative>(rq, t);
    lemma_pull_fourth::<E, Integral, F>(p, t, s, u);
    lemma_pull_fourth::<E, Integral, F>(r, t, q, u);
    lemma_pull_fourth::<E, Integral, F>(q, u, s, u);
    E::lemma_distributive(ps, rq, t);
    E::lemma_distributive(u, pst, rqt);
    assert(E::eqv(n, add_spec::<E>(pst, rqt)));
    assert(E::eqv(
        mul_spec::<E, Commutative>(u, n),
        mul_spec::<E, Commutative>(u, add_spec::<E>(pst, rqt)),
    ));
    assert(E::eqv(
        n2,
        add_spec::<E>(mul_spec::<E, Commutative>(u, pst), mul_spec::<E, Commutative>(u, rqt)),
    ));
    assert(E::eqv(n2, mul_spec::<E, Commutative>(u, n)));
    assert(E::eqv(d2, mul_spec::<E, Commutative>(u, d)));
    // n·d2 = n·(u·d) = d·(u·n) = d·n2
    lemma_three_factors::<E, Integral, F>(n, u, d);
    assert(E::eqv(
        mul_spec::<E, Commutative>(n, d2),
        mul_spec::<E, Commutative>(n, mul_spec::<E, Commutative>(u, d)),
    ));
    assert(E::eqv(
        mul_spec::<E, Commutative>(d, mul_spec::<E, Commutative>(u, n)),
        mul_spec::<E, Commutative>(d, n2),
    ));
}

impl<E, F> MonoidOperation<Addition, Commutative> for FractionField<E, F> where
    E: RingOperation<Commutative, Integral, F> + Copy,
    F: Factorability,
 {
    proof fn lemma_eqv_reflexive(a: (E::V, E::V)) {
        lemma_fraction_equivalence::<E, F>(a, a, a);
    }

    proof fn lemma_eqv_symmetric(a: (E::V, E::V), b: (E::V, E::V)) {
        lemma_fraction_equivalence::<E, F>(a, b, a);
    }

    proof fn lemma_eqv_transitive(a: (E::V, E::V), b: (E::V, E::V), c: (E::V, E::V)) {
        lemma_fraction_equivalence::<E, F>(a, b, c);
    }

    proof fn lemma_closed(a: (E::V, E::V), b: (E::V, E::V)) {
        lemma_fraction_closed::<E, F>(a, b);
    }

    proof fn lemma_congruent(
        a1: (E::V, E::V),
        a2: (E::V, E::V),
        b1: (E::V, E::V),
        b2: (E::V, E::V),
    ) {
        lemma_sum_congruent::<E, F>(a1, a2, b1, b2);
    }

    proof fn lemma_associative(a: (E::V, E::V), b: (E::V, E::V), c: (E::V, E::V)) {
        lemma_sum_associative::<E, F>(a, b, c);
    }

    proof fn lemma_commutative(a: (E::V, E::V), b: (E::V, E::V)) {
        lemma_sum_commutative::<E, F>(a, b);
    }

    proof fn lemma_identity(x: (E::V, E::V)) {
        lemma_sum_identity::<E, F>(x);
    }
}

impl<E, F> GroupOperation<Addition, Commutative> for FractionField<E, F> where
    E: RingOperation<Commutative, Integral, F> + Copy,
    F: Factorability,
 {
    proof fn lemma_inverse(x: (E::V, E::V)) {
        lemma_sum_inverse::<E, F>(x);
    }

    proof fn lemma_invertible_closed(a: (E::V, E::V), b: (E::V, E::V)) {
        lemma_fraction_closed::<E, F>(a, b);
    }

    proof fn lemma_inverse_congruent(a: (E::V, E::V), b: (E::V, E::V)) {
        lemma_ring_basics::<E, Commutative, Integral, F>(a.0);
        lemma_neg_mul::<E, Commutative, Integral, F>(a.0, b.1);
        lemma_neg_mul::<E, Commutative, Integral, F>(a.1, b.0);
        let ps = mul_spec::<E, Commutative>(a.0, b.1);
        let qr = mul_spec::<E, Commutative>(a.1, b.0);
        assert(E::eqv(neg_spec::<E>(ps), neg_spec::<E>(qr)));
    }
}

impl<E, F> MonoidOperation<Multiplication, Commutative> for FractionField<E, F> where
    E: RingOperation<Commutative, Integral, F> + Copy,
    F: Factorability,
 {
    proof fn lemma_eqv_reflexive(a: (E::V, E::V)) {
        lemma_fraction_equivalence::<E, F>(a, a, a);
    }

    proof fn lemma_eqv_symmetric(a: (E::V, E::V), b: (E::V, E::V)) {
        lemma_fraction_equivalence::<E, F>(a, b, a);
    }

    proof fn lemma_eqv_transitive(a: (E::V, E::V), b: (E::V, E::V), c: (E::V, E::V)) {
        lemma_fraction_equivalence::<E, F>(a, b, c);
    }

    proof fn lemma_closed(a: (E::V, E::V), b: (E::V, E::V)) {
        lemma_fraction_closed::<E, F>(a, b);
    }

    proof fn lemma_congruent(
        a1: (E::V, E::V),
        a2: (E::V, E::V),
        b1: (E::V, E::V),
        b2: (E::V, E::V),
    ) {
        lemma_product_congruent::<E, F>(a1, a2, b1, b2);
    }

    proof fn lemma_associative(a: (E::V, E::V), b: (E::V, E::V), c: (E::V, E::V)) {
        lemma_product_associative::<E, F>(a, b, c);
    }

    proof fn lemma_commutative(a: (E::V, E::V), b: (E::V, E::V)) {
        lemma_product_associative::<E, F>(a, b, a);
    }

    proof fn lemma_identity(x: (E::V, E::V)) {
        lemma_product_identity::<E, F>(x);
    }
}

impl<E, F> GroupOperation<Multiplication, Commutative> for FractionField<E, F> where
    E: RingOperation<Commutative, Integral, F> + Copy,
    F: Factorability,
 {
    proof fn lemma_inverse(x: (E::V, E::V)) {
        lemma_product_inverse::<E, F>(x);
    }

    proof fn lemma_invertible_closed(a: (E::V, E::V), b: (E::V, E::V)) {
        lemma_fraction_closed::<E, F>(a, b);
        E::lemma_integral(a.0, b.0);
    }

    proof fn lemma_inverse_congruent(a: (E::V, E::V), b: (E::V, E::V)) {
        lemma_fraction_equivalence::<E, F>(a, b, a);
        lemma_ring_basics::<E, Commutative, Integral, F>(a.0);
        let z = zero_spec::<E>();
        if E::eqv(b.0, z) {
            // then p·s = q·r = q·0 = 0, though neither p nor s is 0
            lemma_mul_zero::<E, Commutative, Integral, F>(a.1);
            let qr = mul_spec::<E, Commutative>(a.1, b.0);
            let qz = mul_spec::<E, Commutative>(a.1, z);
            assert(E::eqv(qr, qz));
            E::lemma_integral(a.0, b.1);
        }
    }
}

impl<E, F, I2, F2> RingOperation<Commutative, I2, F2> for FractionField<E, F> where
    E: RingOperation<Commutative, Integral, F> + Copy,
    F: Factorability,
    I2: Integrality,
    F2: Factorability,
 {
    /// The fractions over an integral domain are a field.
    open spec fn is_integral_domain() -> bool {
        E::is_integral_domain()
    }

    proof fn lemma_negation_total(x: (E::V, E::V)) {
    }

    proof fn lemma_distributive(a: (E::V, E::V), b: (E::V, E::V), c: (E::V, E::V)) {
        lemma_fractions_distribute::<E, F>(a, b, c);
    }

    proof fn lemma_integral(a: (E::V, E::V), b: (E::V, E::V)) {
        lemma_zero_fraction::<E, F>(a);
        lemma_zero_fraction::<E, F>(b);
        lemma_fraction_closed::<E, F>(a, b);
        lemma_zero_fraction::<E, F>(fraction_product::<E, F>(a, b));
        E::lemma_integral(a.0, b.0);
    }

    proof fn lemma_nontrivial() {
        E::lemma_nontrivial();
        let z = zero_spec::<E>();
        let o = one_spec::<E>();
        lemma_zero_fraction::<E, F>((o, o));
    }
}

impl<E, F> FieldOperation for FractionField<E, F> where
    E: RingOperation<Commutative, Integral, F> + Copy,
    F: Factorability,
 {
    proof fn lemma_nonzero_invertible(x: (E::V, E::V)) {
        lemma_zero_fraction::<E, F>(x);
    }
}

} // verus!
