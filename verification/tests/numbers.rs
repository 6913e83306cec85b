use abstract_algebra::groups::{AbelianGroup, GroupOperation};
use abstract_algebra::monoid::{Monoid, MonoidOperation};
use abstract_algebra::ops::{Addition, Commutative, Element, Invertible, Multiplication};
use abstract_algebra::primitives::{Integer, Natural};
use abstract_algebra::rings::{
    CommutativeRing, Integral, IntegralRing, Ring, RingOperation, UniqueFactorisationDomain,
};

#[test]
fn numbers_monoid() {
    fn _f() -> impl MonoidOperation<Multiplication, Commutative> {
        Natural::new(1)
    }
    fn _g() -> impl MonoidOperation<Addition, Commutative> {
        Natural::new(1)
    }
    let one = Natural::new(1);
    let two = Natural::new(2);
    assert_eq!(one * one, one);
    assert_eq!(one + one, two);
    assert_eq!(two * two, two + two);
}

#[test]
fn monoid() {
    let _: Monoid<Natural, Multiplication, Commutative> = Monoid::new(Natural::new(1));
    let _: Monoid<Natural, Addition, Commutative> = Monoid::new(Natural::new(1));
}

#[test]
fn numbers_ring() {
    fn _f() -> impl RingOperation<Commutative, Integral, UniqueFactorisationDomain> {
        Integer::new(1)
    }
}

#[test]
fn ring() {
    let _: Ring<Integer, Commutative, Integral, UniqueFactorisationDomain> =
        Ring::new(Integer::new(1));
}

#[test]
fn wrapper_test() {
    fn _f() -> impl GroupOperation<Addition, Commutative> {
        Integer::new(32)
    }
    fn _g() -> impl RingOperation<Commutative, Integral, UniqueFactorisationDomain> {
        Integer::new(42)
    }
    fn _h() -> impl AbelianGroup<Addition> {
        Integer::new(32)
    }
    fn _i() -> impl CommutativeRing<Integral, UniqueFactorisationDomain> {
        Integer::new(42)
    }
    fn _j() -> impl IntegralRing<Commutative, UniqueFactorisationDomain> {
        Integer::new(42)
    }
    assert_eq!(Integer::from(32).value(), 32);
    assert_eq!(Natural::from(42).value(), 42);
}

#[test]
fn integer_arithmetic() {
    let a = Integer::new(-6);
    let b = Integer::new(7);
    assert_eq!((a + b).value(), 1);
    assert_eq!((a * b).value(), -42);
    assert_eq!(a.inv().value(), 6);
    assert_eq!(<Integer as Invertible<Addition>>::inv(&b).value(), -7);
    assert!(a.equals(&Integer::new(-6)));
    assert!(!a.equals(&b));
}

#[test]
fn natural_arithmetic() {
    let a = Natural::new(6);
    let b = Natural::new(7);
    assert_eq!((a + b).value(), 13);
    assert_eq!((a * b).value(), 42);
    assert!(a.equals(&Natural::new(6)));
    assert!(!a.equals(&b));
}

#[test]
fn monoid_powers() {
    let three: Monoid<Natural, Multiplication, Commutative> = Monoid::new(Natural::new(3));
    assert_eq!(three.pow(0), Monoid::id());
    assert_eq!(three.pow(4), Monoid::new(Natural::new(81)));
    assert_eq!(three * three, Monoid::new(Natural::new(9)));
    let five: Monoid<Natural, Addition, Commutative> = Monoid::new(Natural::new(5));
    assert_eq!(five.pow(4), Monoid::new(Natural::new(20)));
    assert_eq!(five + five, Monoid::new(Natural::new(10)));
    assert_eq!(five.op(&Monoid::id()), five);
}
