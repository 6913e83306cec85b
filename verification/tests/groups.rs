use abstract_algebra::groups::{test_group_axioms, Cyclic, GroupOperation, GroupProduct};
use abstract_algebra::ops::{
    test_accociativity, test_commutativity, Addition, Associative, Commutative, Element,
    Invertible,
    Multiplication, NonCommutative,
};
use abstract_algebra::primitives::{CyclicNumber, DihedralElement, Integer, Permutation};

#[test]
fn group_axioms_hold_on_samples() {
    let perms = [
        Permutation::<5>::from_cycles(&[&[1, 2, 3], &[4, 5]]),
        Permutation::<5>::from_cycle(&[1, 2]),
        Permutation::<5>::from_cycle(&[1, 3, 4]),
    ];
    assert!(test_group_axioms::<Permutation<5>, Multiplication, NonCommutative>(&perms));
    let dihedral = [
        DihedralElement::<5>::new(1, false),
        DihedralElement::<5>::new(0, true),
        DihedralElement::<5>::new(3, true),
    ];
    assert!(test_group_axioms::<DihedralElement<5>, Multiplication, NonCommutative>(&dihedral));
    let residues: Vec<CyclicNumber<7>> = [1usize, 2, 3, 4, 5, 6].into_iter().map(CyclicNumber::from).collect();
    assert!(test_group_axioms::<CyclicNumber<7>, Addition, Commutative>(&residues));
    assert!(test_group_axioms::<CyclicNumber<7>, Multiplication, Commutative>(&residues));
    assert!(test_group_axioms::<Integer, Addition, Commutative>(&[Integer::new(4), Integer::new(-9)]));
    assert!(test_group_axioms::<Integer, Addition, Commutative>(&[]));
}

#[test]
fn associativity_holds_on_samples() {
    let perms = [
        Permutation::<4>::from_cycle(&[1, 2, 3]),
        Permutation::<4>::from_cycle(&[1, 2]),
        Permutation::<4>::from_cycle(&[3, 4]),
        Permutation::<4>::from_cycle(&[1, 4, 2]),
    ];
    assert!(test_accociativity::<Permutation<4>, Multiplication, NonCommutative, Associative>(&perms));
    let integers: Vec<Integer> = [1, -2, 3, -4].into_iter().map(Integer::new).collect();
    assert!(test_accociativity::<Integer, Addition, Commutative, Associative>(&integers));
    assert!(test_accociativity::<Integer, Multiplication, Commutative, Associative>(&integers));
    assert!(test_accociativity::<Integer, Addition, Commutative, Associative>(&integers[..2]));
}

#[test]
fn commutativity_is_refuted_where_it_fails() {
    let integers: Vec<Integer> = [1, -2, 3, -4].into_iter().map(Integer::new).collect();
    assert!(test_commutativity::<Integer, Multiplication, Commutative, Associative>(&integers));
    let commuting = [Permutation::<4>::from_cycle(&[1, 2]), Permutation::<4>::from_cycle(&[3, 4])];
    assert!(test_commutativity::<Permutation<4>, Multiplication, NonCommutative, Associative>(&commuting));
    let not_commuting = [Permutation::<4>::from_cycle(&[1, 2]), Permutation::<4>::from_cycle(&[2, 3])];
    assert!(!test_commutativity::<Permutation<4>, Multiplication, NonCommutative, Associative>(&not_commuting));
}

#[test]
fn direct_product_composes_componentwise() {
    type P = GroupProduct<
        CyclicNumber<4>,
        Permutation<3>,
        Addition,
        Multiplication,
        Commutative,
        NonCommutative,
    >;
    let x = P::new(3.into(), [2, 1, 3].into());
    let y = P::new(2.into(), [1, 3, 2].into());
    let z = x.op(&y);
    assert_eq!(z, P::new(1.into(), [2, 3, 1].into()));
    assert_eq!(z.first().value(), 1);
    assert_eq!(z.second().to_array(), [2, 3, 1]);
    assert_eq!(x.op(&x.inv()), P::id());
    assert_eq!(x.inv(), P::new(1.into(), [2, 1, 3].into()));
    assert_eq!(P::id().op(&y), y);
    assert_eq!(z.inv(), y.inv().op(&x.inv()));
    assert!(z.equals(&P::new(5.into(), [2, 3, 1].into())));
    assert!(!z.equals(&x));
}

#[test]
fn power_with_a_negative_exponent_repeats_the_inverse() {
    let x: Cyclic<7> = Cyclic::new(3.into());
    assert_eq!(x.pow(-2), Cyclic::new(1.into()));
    assert_eq!(x.pow(-2), x.inv().pow(2));
    assert_eq!(x.pow(7), Cyclic::id());
    let sigma = DihedralElement::<5>::new(1, false);
    assert_eq!(sigma.pow(-1), sigma.inv());
    assert_eq!(sigma.pow(-4), sigma);
    assert_eq!(sigma.pow(0), DihedralElement::<5>::new(0, false));
}
