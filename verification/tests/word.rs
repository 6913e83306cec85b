use abstract_algebra::groups::{Free, GroupOperation};
use abstract_algebra::ops::{BinaryOperation, Element, Identity, Invertible};
use abstract_algebra::primitives::{Alphabet, Word};

#[test]
fn free_group() {
    let id = Word::<usize>::id();
    let a = Word::from_symbols(&[Alphabet::Fwd(0), Alphabet::Fwd(1)]);
    let b = Word::from_symbols(&[Alphabet::Bwd(1), Alphabet::Bwd(0)]);

    assert_eq!(
        a.op(&a),
        Word::from_symbols(&[
            Alphabet::Fwd(0),
            Alphabet::Fwd(1),
            Alphabet::Fwd(0),
            Alphabet::Fwd(1)
        ])
    );
    assert_eq!(a.inv(), b);
    assert_eq!(id, a.op(&b))
}

#[test]
fn free_macro() {}

#[test]
fn a_word_times_its_inverse_is_empty() {
    let x = Word::from_symbols(&[Alphabet::Fwd('a'), Alphabet::Fwd('b'), Alphabet::Bwd('c')]);
    let y = Word::from_symbols(&[Alphabet::Fwd('c'), Alphabet::Bwd('b'), Alphabet::Bwd('a')]);
    assert_eq!(x.op(&y), Word::id());
    assert!(x.op(&y).symbols().is_empty());
    assert_eq!(x.inv(), y);
}

#[test]
fn reduction_cancels_from_the_inside_out() {
    let w = Word::from_symbols(&[
        Alphabet::Fwd('b'),
        Alphabet::Fwd('a'),
        Alphabet::Bwd('a'),
        Alphabet::Bwd('b'),
    ]);
    assert_eq!(w, Word::id());
    let v = Word::reduce(vec![
        Alphabet::Fwd(1u8),
        Alphabet::Fwd(2),
        Alphabet::Bwd(2),
        Alphabet::Fwd(3),
        Alphabet::Bwd(3),
        Alphabet::Bwd(1),
        Alphabet::Fwd(4),
    ]);
    assert_eq!(v, vec![Alphabet::Fwd(4u8)]);
}

#[test]
fn reduction_keeps_what_does_not_cancel() {
    let v = Word::reduce(vec![Alphabet::Fwd('a'), Alphabet::Fwd('a'), Alphabet::Bwd('b')]);
    assert_eq!(v, vec![Alphabet::Fwd('a'), Alphabet::Fwd('a'), Alphabet::Bwd('b')]);
    assert_eq!(Word::<char>::reduce(vec![]), vec![]);
}

#[test]
fn symbol_inverse() {
    assert_eq!(Alphabet::Fwd('a').inv(), Alphabet::Bwd('a'));
    assert_eq!(Alphabet::Bwd('a').inv(), Alphabet::Fwd('a'));
    assert!(Alphabet::Fwd(1).same(&Alphabet::Fwd(1)));
    assert!(!Alphabet::Fwd(1).same(&Alphabet::Bwd(1)));
    assert!(!Alphabet::Fwd(1).same(&Alphabet::Fwd(2)));
}

#[test]
fn composition_cancels_at_the_boundary() {
    let x = Word::from_symbols(&[Alphabet::Fwd('a'), Alphabet::Fwd('b')]);
    let y = Word::from_symbols(&[Alphabet::Bwd('b'), Alphabet::Fwd('c')]);
    let z = x.op(&y);
    assert_eq!(z.symbols(), &vec![Alphabet::Fwd('a'), Alphabet::Fwd('c')]);
    assert!(z.equals(&Word::from_symbols(&[Alphabet::Fwd('a'), Alphabet::Fwd('c')])));
    assert!(!z.equals(&x));
}

#[test]
fn word_laws_on_a_sample() {
    let sample = vec![
        Word::from_symbols(&[]),
        Word::from_symbols(&[Alphabet::Fwd(0u8)]),
        Word::from_symbols(&[Alphabet::Bwd(0), Alphabet::Fwd(1)]),
        Word::from_symbols(&[Alphabet::Bwd(1), Alphabet::Fwd(0), Alphabet::Fwd(0)]),
        Word::from_symbols(&[Alphabet::Fwd(1), Alphabet::Bwd(0), Alphabet::Bwd(1)]),
    ];
    let id = Word::<u8>::id();
    for a in &sample {
        assert_eq!(&id.op(a), a);
        assert_eq!(&a.op(&id), a);
        assert_eq!(a.op(&a.inv()), id);
        assert_eq!(a.inv().op(a), id);
        for b in &sample {
            assert_eq!(a.op(b).inv(), b.inv().op(&a.inv()));
            for c in &sample {
                assert_eq!(a.op(b).op(c), a.op(&b.op(c)));
            }
        }
    }
}

#[test]
fn free_group_wrapper() {
    let x: Free<char> = Free::new(Word::from_symbols(&[Alphabet::Fwd('a'), Alphabet::Fwd('b')]));
    let cube = x.pow(3);
    let back = x.pow(-3);
    assert_eq!(cube.op(&back), Free::id());
    assert_eq!(
        x.pow(2),
        Free::new(Word::from_symbols(&[
            Alphabet::Fwd('a'),
            Alphabet::Fwd('b'),
            Alphabet::Fwd('a'),
            Alphabet::Fwd('b')
        ]))
    );
    let raw = Word::from_symbols(&[Alphabet::Fwd('a')]);
    assert_eq!(raw.pow(-2), Word::from_symbols(&[Alphabet::Bwd('a'), Alphabet::Bwd('a')]));
}
