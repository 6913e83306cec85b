use abstract_algebra::groups::{Cyclic, CMult, GroupOperation};
use abstract_algebra::ops::{
    Addition, Associative, BinaryOperation, Commutative, Element, Identity, Invertible,
    Multiplication,
};
use abstract_algebra::primitives::CyclicNumber;

#[test]
fn cyclic_test() {
    let zero: CyclicNumber<4> = 0.into();
    let four: CyclicNumber<4> = 4.into();
    let three: CyclicNumber<4> = 3.into();
    let two: CyclicNumber<4> = 2.into();
    let one: CyclicNumber<4> = 1.into();

    assert_eq!(four, zero);
    assert_eq!(
        <CyclicNumber<4> as BinaryOperation<Multiplication, Commutative, Associative>>::op(&two, &three),
        two
    );
    assert_eq!(
        <CyclicNumber<4> as BinaryOperation<Addition, Commutative, Associative>>::op(&two, &four),
        two
    );
    assert_eq!(
        <CyclicNumber<4> as BinaryOperation<Addition, Commutative, Associative>>::op(&three, &two),
        one
    );
}

#[test]
fn test() {
    let zero: CyclicNumber<4> = 0.into();
    let four: CyclicNumber<4> = 4.into();
    let three: CyclicNumber<4> = 3.into();
    let two: CyclicNumber<4> = 2.into();

    assert_eq!(four, zero);
    assert_eq!(two * three, two);
    assert_eq!(two + four, two);
    // 3 + 3 = 6, which is 2 modulo 4
    assert_eq!(three + three, two);
}

#[test]
fn addition() {
    let id: Cyclic<4> = Cyclic::new(0.into());
    let x: Cyclic<4> = Cyclic::new(4.into());
    let y: Cyclic<4> = Cyclic::new(3.into());
    let z: Cyclic<4> = Cyclic::new(2.into());

    assert_eq!(x, id);
    assert_eq!(x + y, Cyclic::new(3.into()));
    assert_eq!(y + z, Cyclic::new(1.into()));
}

#[test]
fn zero_is_the_additive_identity() {
    let zero = <CyclicNumber<4> as Identity<Addition>>::id();
    assert_eq!(zero.value(), 0);
    for v in 0..4usize {
        let x: CyclicNumber<4> = v.into();
        assert_eq!(zero + x, x);
        assert_eq!(x + zero, x);
    }
}

#[test]
fn additive_inverse() {
    for v in 0..7usize {
        let x: CyclicNumber<7> = v.into();
        let minus = <CyclicNumber<7> as Invertible<Addition>>::inv(&x);
        assert_eq!(minus.value(), (7 - v) % 7);
        assert_eq!((x + minus).value(), 0);
        assert_eq!((minus + x).value(), 0);
    }
}

#[test]
fn inverse_modulo_five() {
    let two: CyclicNumber<5> = 2.into();
    let three: CyclicNumber<5> = 3.into();
    assert_eq!(<CyclicNumber<5> as Invertible<Multiplication>>::inv(&two), three);
    assert_eq!(<CyclicNumber<5> as Invertible<Multiplication>>::inv(&three), two);
    assert_eq!((two * three).value(), 1);
}

#[test]
fn inverse_modulo_ninety_seven() {
    let a: CyclicNumber<97> = 17.into();
    let b = <CyclicNumber<97> as Invertible<Multiplication>>::inv(&a);
    assert_eq!(b, 40.into());
    assert_eq!((a * b).value(), 1);
}

#[test]
fn inverse_modulo_two() {
    let one: CyclicNumber<2> = 1.into();
    assert_eq!(<CyclicNumber<2> as Invertible<Multiplication>>::inv(&one), one);
}

#[test]
fn every_nonzero_residue_modulo_a_prime_has_an_inverse() {
    for v in 1..101usize {
        let x: CyclicNumber<101> = v.into();
        let y = <CyclicNumber<101> as Invertible<Multiplication>>::inv(&x);
        assert_eq!((x * y).value(), 1);
        assert_eq!((y * x).value(), 1);
    }
}

#[test]
fn multiplicative_identity() {
    let one = <CyclicNumber<6> as Identity<Multiplication>>::id();
    assert_eq!(one.value(), 1);
    let only = <CyclicNumber<1> as Identity<Multiplication>>::id();
    assert_eq!(only.value(), 0);
}

#[test]
fn from_reduces() {
    let x: CyclicNumber<4> = 11.into();
    assert_eq!(x.value(), 3);
    let big: CyclicNumber<7> = usize::MAX.into();
    assert_eq!(big.value(), usize::MAX % 7);
}

#[test]
fn large_modulus_does_not_overflow() {
    const M: usize = usize::MAX;
    let a: CyclicNumber<M> = (M - 1).into();
    let b: CyclicNumber<M> = (M - 2).into();
    assert_eq!((a + b).value(), M - 3);
    assert_eq!((a * b).value(), 2);
}

#[test]
fn cyclic_numbers_compare_with_equals() {
    let a: CyclicNumber<4> = 6.into();
    let b: CyclicNumber<4> = 2.into();
    let c: CyclicNumber<4> = 3.into();
    assert!(a.equals(&b));
    assert!(!a.equals(&c));
}

#[test]
fn powers_in_the_cyclic_group() {
    let x: Cyclic<5> = Cyclic::new(2.into());
    assert_eq!(x.pow(0), Cyclic::new(0.into()));
    assert_eq!(x.pow(3), Cyclic::new(1.into()));
    assert_eq!(x.pow(-1), Cyclic::new(3.into()));
    assert_eq!(x.pow(-3), Cyclic::new(4.into()));
    assert_eq!(x * 3, Cyclic::new(1.into()));
    let y: CMult<5> = CMult::new(2.into());
    assert_eq!(y.pow(4), CMult::new(1.into()));
    assert_eq!(y.pow(-1), CMult::new(3.into()));
    assert_eq!(
        <CyclicNumber<5> as GroupOperation<Multiplication, Commutative>>::pow(&2.into(), 2),
        4.into()
    );
}
