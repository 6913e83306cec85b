use abstract_algebra::actions::GroupAction;
use abstract_algebra::groups::{GroupOperation, Symmetric};
use abstract_algebra::ops::{BinaryOperation, Element, Identity, Invertible};
use abstract_algebra::primitives::Permutation;

#[test]
fn perm_macro() {
    let id = Permutation::<5>::from_cycles(&[&[]]);
    assert_eq!(id, Permutation::id());

    assert_eq!(
        Permutation::<5>::from_cycles(&[&[1, 2, 3], &[4, 5]]).inv(),
        Permutation::<5>::from_cycles(&[&[1, 3, 2], &[4, 5]])
    );
    assert_eq!(
        Permutation::<3>::from_cycles(&[&[1, 2, 3]]),
        Permutation::<3>::from_cycles(&[&[2, 3, 1]])
    );
    assert_eq!(
        Permutation::<5>::from_cycles(&[&[1, 2], &[2, 3]]),
        Permutation::<5>::from_cycles(&[&[1, 2, 3]])
    );

    assert_eq!(
        Permutation::<5>::from_cycles(&[&[1, 2, 3, 4, 5]]).inv(),
        Permutation::<5>::from_cycles(&[&[1, 5, 4, 3, 2]])
    );
}

#[test]
fn perm_test() {
    let id = Permutation::<5>::from_cycles(&[&[]]);
    let a = Permutation::<5>::from_cycles(&[&[1, 2, 3], &[4, 5]]);

    assert_eq!(a.pow(6), id);
    assert_eq!(a.pow(2), Permutation::<5>::from_cycles(&[&[1, 3, 2]]));
    assert_eq!(a.pow(3), Permutation::<5>::from_cycles(&[&[4, 5]]));
}

#[test]
fn symmetric_group() {
    let id: Permutation<3> = [1, 2, 3].into();
    let x: Permutation<3> = [2, 1, 3].into(); // (1 2)
    let y: Permutation<3> = [1, 3, 2].into(); // (2 3)
    let z = x * y; // (1 2)(2 3) = (1 2 3)

    assert_eq!(id, Permutation::id());
    assert_eq!(x * x, Permutation::id());
    assert_eq!(z.pow(3), Permutation::id());
    assert_eq!(x * y, [2, 3, 1].into()); // (1 2)(2 3) = (1 2 3)
    assert_eq!(y * x, [3, 1, 2].into()); // (2 3)(1 2) = (1 3 2)
}

#[test]
fn sym_macro() {
    let x: Permutation<3> = Permutation::from_cycles(&[&[1, 2, 3]]);
    let y = Permutation::from_cycles(&[&[1, 2], &[2, 3]]);

    assert_eq!(x, y);
    assert_eq!(x, [2, 3, 1].into());

    assert_eq!(
        Permutation::<8>::from_cycles(&[&[1, 2, 3, 4, 5, 6, 7, 8]]),
        [2, 3, 4, 5, 6, 7, 8, 1].into()
    );

    assert_eq!(
        Permutation::<10>::from_cycles(&[&[1, 2], &[1, 2]]),
        Permutation::<10>::id()
    );
    assert_eq!(Permutation::<3>::from_cycles(&[&[1]]), Permutation::<3>::id());
}

#[test]
fn cycle_notation_gives_the_image_array() {
    let x = Permutation::<3>::from_cycle(&[1, 2, 3]);
    assert_eq!(x.to_array(), [2, 3, 1]);
    let y = Permutation::<5>::from_cycle(&[2, 5]);
    assert_eq!(y.to_array(), [1, 5, 3, 4, 2]);
    assert_eq!(Permutation::<4>::from_cycle(&[]).to_array(), [1, 2, 3, 4]);
}

#[test]
fn composition_applies_the_right_factor_first() {
    let x: Permutation<3> = [2, 1, 3].into();
    let y: Permutation<3> = [1, 3, 2].into();
    let z = x.op(&y);
    // i -> x(y(i))
    assert_eq!(z.to_array(), [2, 3, 1]);
    for i in 1..=3usize {
        assert_eq!(z.image(i), x.image(y.image(i)));
    }
}

#[test]
fn inverse_of_a_three_cycle_is_the_true_inverse() {
    let x: Permutation<3> = [2, 3, 1].into();
    let inverse = x.inv();
    assert_eq!(inverse.to_array(), [3, 1, 2]);
    // not the square of x only by coincidence: check on four points
    let y: Permutation<4> = [2, 3, 4, 1].into();
    assert_eq!(y.inv().to_array(), [4, 1, 2, 3]);
    assert_ne!(y.inv(), y * y);
    assert_eq!(y * y.inv(), Permutation::id());
    assert_eq!(y.inv() * y, Permutation::id());
}

#[test]
fn every_three_cycle_cubed_is_the_identity() {
    for cycle in [[1usize, 2, 3], [1, 3, 2], [2, 4, 5], [5, 1, 3]] {
        let x = Permutation::<5>::from_cycle(&cycle);
        assert_eq!(x.pow(3).to_array(), [1, 2, 3, 4, 5]);
    }
}

#[test]
fn validity_of_image_arrays() {
    assert!(Permutation::<3>::from([2, 3, 1]).is_valid());
    assert!(!Permutation::<3>::from([2, 2, 1]).is_valid());
    assert!(!Permutation::<3>::from([0, 1, 2]).is_valid());
    assert!(!Permutation::<3>::from([1, 2, 4]).is_valid());
    assert!(Permutation::<0>::from([]).is_valid());
}

#[test]
fn permutations_compare_with_equals() {
    let x: Permutation<3> = [2, 3, 1].into();
    let y = Permutation::<3>::from_cycle(&[1, 2, 3]);
    assert!(x.equals(&y));
    assert!(!x.equals(&Permutation::id()));
}

#[test]
fn permutation_laws_on_all_of_s3() {
    let all: Vec<Permutation<3>> = vec![
        [1, 2, 3].into(),
        [1, 3, 2].into(),
        [2, 1, 3].into(),
        [2, 3, 1].into(),
        [3, 1, 2].into(),
        [3, 2, 1].into(),
    ];
    let id = Permutation::<3>::id();
    for &a in &all {
        assert!(a.is_valid());
        assert_eq!(id * a, a);
        assert_eq!(a * id, a);
        assert_eq!(a * a.inv(), id);
        assert_eq!(a.inv() * a, id);
        for &b in &all {
            assert_eq!((a * b).inv(), b.inv() * a.inv());
            for &c in &all {
                assert_eq!((a * b) * c, a * (b * c));
            }
        }
    }
}

#[test]
fn symmetric_group_wrapper() {
    let x: Symmetric<3> = Symmetric::new([2, 1, 3].into());
    let y: Symmetric<3> = Symmetric::new([1, 3, 2].into());
    assert_eq!(x * y, Symmetric::new([2, 3, 1].into()));
    assert_eq!((x * y).pow(3), Symmetric::id());
    assert_eq!((x * y).pow(-1), Symmetric::new([3, 1, 2].into()));
    assert_eq!((x * y).inv(), y.inv() * x.inv());
}

#[test]
fn permutations_act_on_points() {
    let g = Permutation::<5>::from_cycles(&[&[1, 3, 5], &[2, 4]]);
    let h = Permutation::<5>::from_cycle(&[1, 2]);
    let id = Permutation::<5>::id();
    for x in 1..=5usize {
        assert_eq!(id.action(&x), x);
        assert_eq!((g * g).action(&x), g.action(&g.action(&x)));
        assert_eq!(g.inv().action(&g.action(&x)), x);
        assert_eq!((g * h).action(&x), g.action(&h.action(&x)));
    }
    assert_eq!(g.action(&1), 3);
    assert_eq!(g.action(&4), 2);
}
