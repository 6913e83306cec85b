use abstract_algebra::ops::{Addition, Commutative, Element, Invertible};
use abstract_algebra::primitives::{CyclicNumber, Integer};
use abstract_algebra::rings::{
    test_integrability, test_ring_axioms, Factorability, Integral, Integrality, NonIntegral,
    NonUFD, Ring, RingOperation, Q, UFD, Z,
};

type Zn<const N: usize> = Ring<CyclicNumber<N>, Commutative, NonIntegral, NonUFD>;

#[test]
fn blub() {
    fn test<T, C, I, F>(_op: T)
    where
        T: RingOperation<C, I, F>,
        C: abstract_algebra::ops::OperationCommutativity,
        I: Integrality,
        F: Factorability,
    {
    }

    test(Z::new(2.into()));

    let two: Z = Z::new(2.into());
    let four = Z::new(4.into());

    assert_eq!(two + two, four);
}

#[test]
fn ring_integer_ring() {
    let one: Zn<4> = Zn::one();
    let zero = Zn::zero();

    assert_eq!(one + one + one + one, zero);
    assert_eq!(one * zero, zero);
    assert_eq!(one + zero, one);
}

#[test]
fn rings_integer_ring() {
    let one: Zn<4> = Zn::one();
    let zero = Zn::zero();

    let two = one + one;

    assert_eq!(two + one, one + one + one);
    assert_eq!(one + one + two, zero);
    assert_eq!(one * zero, zero);
    assert_eq!(one + zero, one);
}

#[test]
fn ring_of_integers() {
    let a = Z::new(Integer::new(-3));
    let b = Z::new(Integer::new(5));
    assert_eq!(a * b, Z::new(Integer::new(-15)));
    assert_eq!(a + b, Z::new(Integer::new(2)));
    assert_eq!(<Z as Invertible<Addition>>::inv(&a), Z::new(Integer::new(3)));
    assert_eq!(Z::one(), Z::new(Integer::new(1)));
    assert_eq!(Z::zero(), Z::new(Integer::new(0)));
    assert!(a.equals(&Z::new(Integer::new(-3))));
}

#[test]
fn ring_of_rationals() {
    let half = Q::new(abstract_algebra::fields::Rationals::new(1.into(), 2.into()));
    let quarter = Q::new(abstract_algebra::fields::Rationals::new(1.into(), 4.into()));
    assert!((half * half).equals(&quarter));
    assert!((quarter + quarter).equals(&half));
    assert!((half + half).equals(&Q::one()));
}

#[test]
fn distributivity_holds_on_samples() {
    let integers: Vec<Integer> = [-2, 3, 0, 7, -5].into_iter().map(Integer::new).collect();
    assert!(test_ring_axioms::<Integer, Commutative, Integral, UFD>(&integers));
    let residues: Vec<CyclicNumber<6>> = [1usize, 2, 3, 4, 5, 0].into_iter().map(CyclicNumber::from).collect();
    assert!(test_ring_axioms::<CyclicNumber<6>, Commutative, NonIntegral, NonUFD>(&residues));
    assert!(test_ring_axioms::<Integer, Commutative, Integral, UFD>(&[]));
}

#[test]
fn zero_divisors_are_found_where_there_are_some() {
    let integers: Vec<Integer> = [-2, 3, 7, -5].into_iter().map(Integer::new).collect();
    assert!(test_integrability::<Integer, Commutative, UFD>(&integers));
    let prime: Vec<CyclicNumber<7>> = [1usize, 2, 3, 4, 5, 6].into_iter().map(CyclicNumber::from).collect();
    assert!(test_integrability::<CyclicNumber<7>, Commutative, UFD>(&prime));
    // 2 * 3 = 0 modulo 6
    let composite: Vec<CyclicNumber<6>> = [1usize, 2, 3].into_iter().map(CyclicNumber::from).collect();
    assert!(!test_integrability::<CyclicNumber<6>, Commutative, UFD>(&composite));
}
