use abstract_algebra::fields::{Field, FieldOperation, FractionField, Rationals};
use abstract_algebra::ops::{
    Addition, Commutative, Element, Identity, Invertible, Multiplication, OperationCommutativity,
};
use abstract_algebra::primitives::{CyclicNumber, Integer};
use abstract_algebra::rings::{Factorability, Integrality, RingOperation, UFD, Z};

fn rational(p: isize, q: isize) -> Rationals {
    assert!(q != 0);
    Rationals::new(Integer::new(p), Integer::new(q))
}

#[test]
fn field_ops() {
    fn field<T: FieldOperation>(_x: T) {}
    fn ring<T, C, I, F>(_x: T)
    where
        T: RingOperation<C, I, F>,
        C: OperationCommutativity,
        I: Integrality,
        F: Factorability,
    {
    }

    let x: Field<CyclicNumber<5>> = Field::new(2.into());

    field(x);
    ring(x);
}

#[test]
fn operations() {
    let five: Field<CyclicNumber<5>> = Field::new(5.into());
    let two: Field<CyclicNumber<5>> = Field::new(2.into());
    let three: Field<CyclicNumber<5>> = Field::new(3.into());

    assert_eq!(two * five, three * five);
    assert_eq!(two + two + two + two, three);
}

#[test]
fn fraction_field() {
    fn _f(p: Integer, q: Integer) -> impl FieldOperation {
        assert!(q.value() != 0);
        Rationals::new(p, q)
    }
}

#[test]
fn rationals() {
    let x = rational(4, 5);
    let y = rational(1, 5);
    assert_eq!(x + y, <Rationals as Identity<Multiplication>>::id());
    assert!((x + y).equals(&<Rationals as Identity<Multiplication>>::id()));
}

#[test]
fn fractions_are_not_reduced() {
    let x = rational(4, 5);
    let y = rational(1, 5);
    let sum = x + y;
    assert_eq!(sum.numerator().value(), 25);
    assert_eq!(sum.denominator().value(), 25);
    let product = x * y;
    assert_eq!(product.numerator().value(), 4);
    assert_eq!(product.denominator().value(), 25);
}

#[test]
fn fraction_equality_is_by_cross_multiplication() {
    assert_eq!(rational(1, 2), rational(2, 4));
    assert_eq!(rational(-1, 2), rational(1, -2));
    assert_ne!(rational(1, 2), rational(1, 3));
    assert!(rational(3, 9).equals(&rational(1, 3)));
    assert!(!rational(3, 9).equals(&rational(1, 4)));
    assert_eq!(rational(isize::MAX, isize::MAX), rational(1, 1));
}

#[test]
fn fraction_identities_and_inverses() {
    let zero = <Rationals as Identity<Addition>>::id();
    let one = <Rationals as Identity<Multiplication>>::id();
    assert_eq!(zero.numerator().value(), 0);
    assert_eq!(zero.denominator().value(), 1);
    assert_eq!(one.numerator().value(), 1);
    assert_eq!(one.denominator().value(), 1);
    let x = rational(3, 7);
    let minus = <Rationals as Invertible<Addition>>::inv(&x);
    assert_eq!(minus.numerator().value(), -3);
    assert_eq!(minus.denominator().value(), 7);
    assert_eq!(x + minus, zero);
    let inverse = <Rationals as Invertible<Multiplication>>::inv(&x);
    assert_eq!(inverse.numerator().value(), 7);
    assert_eq!(inverse.denominator().value(), 3);
    assert_eq!(x * inverse, one);
    assert_eq!(x + zero, x);
    assert_eq!(x * one, x);
}

#[test]
fn fraction_laws_on_a_sample() {
    let sample = [rational(1, 2), rational(-3, 4), rational(5, -6), rational(0, 3), rational(2, 1)];
    for &a in &sample {
        for &b in &sample {
            assert_eq!(a + b, b + a);
            assert_eq!(a * b, b * a);
            for &c in &sample {
                assert_eq!((a + b) + c, a + (b + c));
                assert_eq!((a * b) * c, a * (b * c));
                assert_eq!(a * (b + c), a * b + a * c);
                assert_eq!((a + b) * c, a * c + b * c);
            }
        }
    }
}

#[test]
fn fractions_over_a_finite_field() {
    let half: FractionField<CyclicNumber<5>, UFD> =
        FractionField::new(1.into(), 2.into());
    let three: FractionField<CyclicNumber<5>, UFD> =
        FractionField::new(3.into(), 1.into());
    // 1/2 = 3 modulo 5
    assert!(half.equals(&three));
    let sum = half + three;
    assert_eq!(sum.numerator().value(), (1 * 1 + 3 * 2) % 5);
    assert_eq!(sum.denominator().value(), 2);
}

#[test]
fn the_field_of_five_elements() {
    let zero: Field<CyclicNumber<5>> = Field::zero();
    let one: Field<CyclicNumber<5>> = Field::one();
    let two = one + one;
    let three = two + one;
    assert_eq!(two * three, one);
    assert_eq!(<Field<CyclicNumber<5>> as Invertible<Multiplication>>::inv(&two), three);
    assert_eq!(<Field<CyclicNumber<5>> as Invertible<Addition>>::inv(&two), three);
    assert_eq!(two + three, zero);
    assert_eq!(three * zero, zero);
    assert!(two.equals(&Field::new(7.into())));
}

#[test]
fn the_field_of_rationals() {
    let half: Field<Rationals> = Field::new(rational(1, 2));
    let third: Field<Rationals> = Field::new(rational(1, 3));
    assert!((half + third).equals(&Field::new(rational(5, 6))));
    assert!((half * third).equals(&Field::new(rational(1, 6))));
    assert!(Field::<Rationals>::one().equals(&Field::new(rational(3, 3))));
}

#[test]
fn a_field_of_fractions_over_the_ring_of_integers() {
    type Fractions = Field<FractionField<Z, UFD>>;
    let fraction =
        |p: isize, q: isize| Fractions::new(FractionField::new(Z::new(p.into()), Z::new(q.into())));
    let half = fraction(1, 2);
    let third = fraction(1, 3);
    assert!((half + third).equals(&fraction(5, 6)));
    assert!((half * third).equals(&fraction(1, 6)));
    assert!(<Fractions as Invertible<Multiplication>>::inv(&half).equals(&fraction(2, 1)));
    assert!(<Fractions as Invertible<Addition>>::inv(&half).equals(&fraction(-1, 2)));
    assert!((half + <Fractions as Invertible<Addition>>::inv(&half)).equals(&Fractions::zero()));
    assert!((half * fraction(2, 1)).equals(&Fractions::one()));
}

#[test]
fn a_field_of_fractions_over_a_finite_field() {
    type Fractions = Field<FractionField<CyclicNumber<7>, UFD>>;
    let fraction =
        |p: usize, q: usize| Fractions::new(FractionField::new(p.into(), q.into()));
    // 3/5 = 2 modulo 7, since 2 * 5 = 10 = 3
    assert!(fraction(3, 5).equals(&fraction(2, 1)));
    let sum = fraction(3, 5) + fraction(1, 2);
    // 2 + 4 = 6
    assert!(sum.equals(&fraction(6, 1)));
    let inverse = <Fractions as Invertible<Multiplication>>::inv(&fraction(3, 5));
    assert!((inverse * fraction(3, 5)).equals(&Fractions::one()));
}

#[test]
fn fractions_of_fractions() {
    let half = rational(1, 2);
    let third = rational(1, 3);
    let nested: FractionField<Rationals, UFD> = FractionField::new(half, third);
    // (1/2)/(1/3) = 3/2 = (3/1)/(2/1)
    let plain: FractionField<Rationals, UFD> =
        FractionField::new(rational(3, 1), rational(2, 1));
    assert!(nested.equals(&plain));
    let square = nested * nested;
    let expected: FractionField<Rationals, UFD> =
        FractionField::new(rational(9, 1), rational(4, 1));
    assert!(square.equals(&expected));
}
