use abstract_algebra::groups::{Dihedral, GroupOperation};
use abstract_algebra::ops::{BinaryOperation, Element, Identity, Invertible};
use abstract_algebra::primitives::DihedralElement;

#[test]
fn dihedral_dihedral() {
    let id = DihedralElement::<5>::id();
    let tau = DihedralElement::<5>::new(0, true);
    let sigma = DihedralElement::<5>::new(1, false);
    assert_eq!(sigma.op(&sigma).op(&sigma).op(&sigma), sigma.inv());
    assert_eq!(tau.op(&tau), id);
    assert_eq!(tau.op(&sigma).op(&tau), sigma.inv());
}

#[test]
fn dihedral() {
    let id = DihedralElement::<5>::id();
    let tau = DihedralElement::<5>::new(0, true);
    let sigma = DihedralElement::<5>::new(1, false);
    assert_eq!(sigma * sigma * sigma * sigma, sigma.inv());
    assert_eq!(tau * tau, id);
    assert_eq!(tau * sigma * tau, sigma.inv());
}

#[test]
fn dihedral_group() {
    let id = DihedralElement::<5>::id();
    let tau = DihedralElement::<5>::new(0, true);
    let sigma = DihedralElement::<5>::new(1, false);
    assert_eq!(sigma.pow(3), sigma * sigma * sigma);
    assert_eq!(tau * tau, id);
    assert_eq!(sigma.pow(5), id);
    assert_eq!(tau * sigma * tau, sigma.inv());
    assert_eq!(tau * sigma.pow(3) * tau, sigma.inv().pow(3));
}

#[test]
fn composition_formula() {
    let a = DihedralElement::<7>::new(5, true);
    let b = DihedralElement::<7>::new(3, true);
    let c = DihedralElement::<7>::new(4, false);
    // b flipped: (7 + 3 - 5) mod 7, flag toggled
    assert_eq!(a * b, DihedralElement::<7>::new(5, false));
    // c not flipped: (5 + 4) mod 7, flag kept
    assert_eq!(a * c, DihedralElement::<7>::new(2, true));
    assert_eq!(c * a, DihedralElement::<7>::new(1, true));
}

#[test]
fn inverse_formula() {
    let reflection = DihedralElement::<7>::new(5, true);
    let rotation = DihedralElement::<7>::new(5, false);
    assert_eq!(reflection.inv(), reflection);
    assert_eq!(rotation.inv(), DihedralElement::<7>::new(2, false));
    assert_eq!(DihedralElement::<7>::id().inv(), DihedralElement::<7>::id());
}

#[test]
fn new_reduces_the_rotation() {
    let x = DihedralElement::<5>::new(12, true);
    assert_eq!(x.rotation(), 2);
    assert!(x.flipped());
    assert!(x.equals(&DihedralElement::<5>::new(2, true)));
    assert!(!x.equals(&DihedralElement::<5>::new(2, false)));
}

#[test]
fn dihedral_laws_on_all_of_d4() {
    let mut all = Vec::new();
    for r in 0..4usize {
        all.push(DihedralElement::<4>::new(r, false));
        all.push(DihedralElement::<4>::new(r, true));
    }
    let id = DihedralElement::<4>::id();
    for &a in &all {
        assert_eq!(id * a, a);
        assert_eq!(a * id, a);
        assert_eq!(a * a.inv(), id);
        assert_eq!(a.inv() * a, id);
        for &b in &all {
            assert_eq!((a * b).inv(), b.inv() * a.inv());
            for &c in &all {
                assert_eq!((a * b) * c, a * (b * c));
            }
        }
    }
}

#[test]
fn dihedral_group_wrapper() {
    let tau: Dihedral<5> = Dihedral::new(DihedralElement::new(0, true));
    let sigma: Dihedral<5> = Dihedral::new(DihedralElement::new(1, false));
    assert_eq!(tau * sigma * tau, sigma.inv());
    assert_eq!(sigma.pow(5), Dihedral::id());
    assert_eq!(sigma.pow(-2), sigma.pow(3));
}
