//! Reduced words over an alphabet: the elements of a free group.
use crate::groups::GroupOperation;
use crate::monoid::MonoidOperation;
use crate::ops::{
    Associative, BinaryOperation, Element, Identity, Invertible, Multiplication, NonCommutative,
};
use vstd::laws_eq::obeys_concrete_eq;
use vstd::prelude::*;

verus! {

/// A symbol of a word: a generator, or the formal inverse of one.
#[derive(Debug, Clone, Copy, PartialEq, Eq)]
pub enum Alphabet<T: Copy + Eq> {
    Fwd(T),
    Bwd(T),
}

impl<T: Copy + Eq> Alphabet<T> {
    /// The formal inverse of the symbol.
    pub open spec fn inv_spec(self) -> Self {
        match self {
            Alphabet::Fwd(x) => Alphabet::Bwd(x),
            Alphabet::Bwd(x) => Alphabet::Fwd(x),
        }
    }

    /// The formal inverse of the symbol.
    pub fn inv(&self) -> (r: Self)
        ensures
            r == self.inv_spec(),
    {
        match self {
            Alphabet::Fwd(x) => Alphabet::Bwd(*x),
            Alphabet::Bwd(x) => Alphabet::Fwd(*x),
        }
    }

    /// Whether two symbols are the same, where the generators' `==` is
    /// equality.
    pub fn same(&self, other: &Self) -> (r: bool)
        ensures
            obeys_concrete_eq::<T>() ==> r == (*self == *other),
    {
        proof {
            reveal(obeys_concrete_eq);
        }
        match (self, other) {
            (Alphabet::Fwd(x), Alphabet::Fwd(y)) => *x == *y,
            (Alphabet::Bwd(x), Alphabet::Bwd(y)) => *x == *y,
            _ => false,
        }
    }
}

/// The stack after one more symbol: the symbol cancels against the top if
/// that is its inverse, and is pushed otherwise.
pub open spec fn push_symbol<T: Copy + Eq>(s: Seq<Alphabet<T>>, x: Alphabet<T>) -> Seq<
    Alphabet<T>,
> {
    if s.len() > 0 && s.last() == x.inv_spec() {
        s.drop_last()
    } else {
        s.push(x)
    }
}

/// The stack after the symbols of `w` have come in, from left to right.
pub open spec fn reduce_onto<T: Copy + Eq>(s: Seq<Alphabet<T>>, w: Seq<Alphabet<T>>) -> Seq<
    Alphabet<T>,
>
    decreases w.len(),
{
    if w.len() == 0 {
        s
    } else {
        push_symbol(reduce_onto(s, w.drop_last()), w.last())
    }
}

/// Free reduction: what is left of `w` when its symbols come in from left
/// to right, each cancelling against its inverse if that came just before.
pub open spec fn reduce_spec<T: Copy + Eq>(w: Seq<Alphabet<T>>) -> Seq<Alphabet<T>> {
    reduce_onto(Seq::empty(), w)
}

/// No symbol of `s` stands next to its inverse.
pub open spec fn is_reduced<T: Copy + Eq>(s: Seq<Alphabet<T>>) -> bool {
    forall|i: int| 0 <= i < s.len() - 1 ==> #[trigger] s[i + 1] != s[i].inv_spec()
}

/// The symbols in reverse order, each inverted.
pub open spec fn inverse_word<T: Copy + Eq>(s: Seq<Alphabet<T>>) -> Seq<Alphabet<T>> {
    Seq::new(s.len(), |i: int| s[s.len() - 1 - i].inv_spec())
}

/// One more symbol keeps a reduced stack reduced.
pub proof fn lemma_push_keeps_reduced<T: Copy + Eq>(s: Seq<Alphabet<T>>, x: Alphabet<T>)
    requires
        is_reduced(s),
    ensures
        is_reduced(push_symbol(s, x)),
{
    let t = push_symbol(s, x);
    assert forall|i: int| 0 <= i < t.len() - 1 implies #[trigger] t[i + 1] != t[i].inv_spec() by {
        if i + 1 < s.len() {
            assert(s[i + 1] != s[i].inv_spec());
        } else {
            assert(t[i + 1] == x);
            assert(t[i] == s.last());
            assert(x.inv_spec().inv_spec() == x);
        }
    }
}

/// What comes out of the reduction is reduced.
pub proof fn lemma_reduce_onto_is_reduced<T: Copy + Eq>(s: Seq<Alphabet<T>>, w: Seq<Alphabet<T>>)
    requires
        is_reduced(s),
    ensures
        is_reduced(reduce_onto(s, w)),
    decreases w.len(),
{
    if w.len() > 0 {
        lemma_reduce_onto_is_reduced(s, w.drop_last());
        lemma_push_keeps_reduced(reduce_onto(s, w.drop_last()), w.last());
    }
}

/// Reducing a concatenation is reducing its parts in turn.
pub proof fn lemma_reduce_onto_concat<T: Copy + Eq>(
    s: Seq<Alphabet<T>>,
    u: Seq<Alphabet<T>>,
    v: Seq<Alphabet<T>>,
)
    ensures
        reduce_onto(s, u + v) == reduce_onto(reduce_onto(s, u), v),
    decreases v.len(),
{
    if v.len() == 0 {
        assert(u + v =~= u);
    } else {
        lemma_reduce_onto_concat(s, u, v.drop_last());
        assert((u + v).drop_last() =~= u + v.drop_last());
        assert((u + v).last() == v.last());
    }
}

/// Reduction leaves alone what is reduced already.
pub proof fn lemma_reduce_of_reduced<T: Copy + Eq>(s: Seq<Alphabet<T>>, w: Seq<Alphabet<T>>)
    requires
        is_reduced(s + w),
    ensures
        reduce_onto(s, w) == s + w,
    decreases w.len(),
{
    if w.len() == 0 {
        assert(s + w =~= s);
    } else {
        let front = w.drop_last();
        let whole = s + w;
        assert(s + front =~= whole.drop_last());
        assert forall|i: int| 0 <= i < (s + front).len() - 1 implies #[trigger] (s + front)[i + 1]
            != (s + front)[i].inv_spec() by {
            assert(whole[i + 1] != whole[i].inv_spec());
        }
        lemma_reduce_of_reduced(s, front);
        let t = s + front;
        if t.len() > 0 {
            let i = t.len() - 1;
            assert(whole[i + 1] != whole[i].inv_spec());
            assert(whole[i + 1] == w.last());
            assert(whole[i] == t.last());
            assert(w.last().inv_spec().inv_spec() == w.last());
        }
        assert(t.push(w.last()) =~= whole);
    }
}

/// A symbol and then its inverse leave a reduced stack as it was.
pub proof fn lemma_push_undo<T: Copy + Eq>(u: Seq<Alphabet<T>>, y: Alphabet<T>)
    requires
        is_reduced(u),
    ensures
        push_symbol(push_symbol(u, y), y.inv_spec()) == u,
{
    assert(y.inv_spec().inv_spec() == y);
    if u.len() > 0 && u.last() == y.inv_spec() {
        let front = u.drop_last();
        if front.len() > 0 {
            let i = u.len() - 2;
            assert(u[i + 1] != u[i].inv_spec());
            assert(front.last() == u[i]);
            assert(u[i].inv_spec().inv_spec() == u[i]);
        }
        assert(front.push(y.inv_spec()) =~= u);
    } else {
        assert(u.push(y).drop_last() =~= u);
    }
}

/// Onto a reduced stack, a word and its reduction do the same.
pub proof fn lemma_reduce_onto_reduced_word<T: Copy + Eq>(
    s: Seq<Alphabet<T>>,
    w: Seq<Alphabet<T>>,
)
    requires
        is_reduced(s),
    ensures
        reduce_onto(s, reduce_spec(w)) == reduce_onto(s, w),
    decreases w.len(),
{
    if w.len() > 0 {
        let x = w.last();
        let t = reduce_spec(w.drop_last());
        lemma_reduce_onto_reduced_word(s, w.drop_last());
        assert(is_reduced(Seq::<Alphabet<T>>::empty()));
        lemma_reduce_onto_is_reduced(Seq::empty(), w.drop_last());
        if t.len() > 0 && t.last() == x.inv_spec() {
            let front = t.drop_last();
            let u = reduce_onto(s, front);
            lemma_reduce_onto_is_reduced(s, front);
            lemma_push_undo(u, x.inv_spec());
            assert(x.inv_spec().inv_spec() == x);
        } else {
            assert(t.push(x).drop_last() =~= t);
        }
    }
}

/// A reduced word followed by its inverse reduces to nothing: the
/// inverse's first `k` symbols cancel the word's last `k`.
proof fn lemma_inverse_cancels<T: Copy + Eq>(x: Seq<Alphabet<T>>, k: nat)
    requires
        is_reduced(x),
        k <= x.len(),
    ensures
        reduce_onto(x, inverse_word(x).take(k as int)) == x.take(x.len() - k),
    decreases k,
{
    let inv = inverse_word(x);
    if k == 0 {
        assert(inv.take(0) =~= Seq::empty());
        assert(x.take(x.len() as int) =~= x);
    } else {
        lemma_inverse_cancels(x, (k - 1) as nat);
        let part = inv.take(k as int);
        assert(part.drop_last() =~= inv.take(k - 1));
        let sym = part.last();
        assert(sym == x[x.len() - k].inv_spec());
        let stack = x.take(x.len() - k + 1);
        assert(stack.last() == x[x.len() - k]);
        assert(sym.inv_spec() == x[x.len() - k]);
        assert(stack.drop_last() =~= x.take(x.len() - k));
    }
}

/// The inverse of a reduced word is reduced, and inverting twice gives the
/// word back.
pub proof fn lemma_inverse_word<T: Copy + Eq>(x: Seq<Alphabet<T>>)
    requires
        is_reduced(x),
    ensures
        is_reduced(inverse_word(x)),
        inverse_word(inverse_word(x)) == x,
{
    let inv = inverse_word(x);
    let n = x.len() as int;
    assert forall|i: int| 0 <= i < inv.len() - 1 implies #[trigger] inv[i + 1] != inv[i].inv_spec() by {
        let j = n - 2 - i;
        assert(x[j + 1] != x[j].inv_spec());
        assert(x[j + 1].inv_spec().inv_spec() == x[j + 1]);
    }
    assert forall|i: int| 0 <= i < n implies #[trigger] inverse_word(inv)[i] == x[i] by {
        assert(x[i].inv_spec().inv_spec() == x[i]);
    }
    assert(inverse_word(inv) =~= x);
}

/// A reduced word times its inverse is the empty word.
pub proof fn lemma_word_times_inverse<T: Copy + Eq>(x: Seq<Alphabet<T>>)
    requires
        is_reduced(x),
    ensures
        reduce_spec(x + inverse_word(x)) == Seq::<Alphabet<T>>::empty(),
{
    let inv = inverse_word(x);
    lemma_reduce_onto_concat(Seq::empty(), x, inv);
    assert(Seq::<Alphabet<T>>::empty() + x =~= x);
    lemma_reduce_of_reduced(Seq::empty(), x);
    lemma_inverse_cancels(x, x.len());
    assert(inv.take(x.len() as int) =~= inv);
    assert(x.take(0) =~= Seq::empty());
}

/// A word of the free group over the generators `T`, held in reduced form.
///
/// The model is the sequence of symbols. A value is a member when it is
/// reduced; every value that this module makes is, where `==` on `T` is
/// equality.
#[derive(Debug, Clone, PartialEq, Eq)]
pub struct Word<T: Copy + Eq>(Vec<Alphabet<T>>);

impl<T: Copy + Eq> View for Word<T> {
    type V = Seq<Alphabet<T>>;

    closed spec fn view(&self) -> Seq<Alphabet<T>> {
        self.0@
    }
}

/// Lets the symbols of `w` come in onto `stack`, from left to right.
fn reduce_slice_onto<T: Copy + Eq>(stack: Vec<Alphabet<T>>, w: &[Alphabet<T>]) -> (r: Vec<
    Alphabet<T>,
>)
    ensures
        obeys_concrete_eq::<T>() ==> r@ == reduce_onto(stack@, w@),
{
    let mut reduced = stack;
    let mut i: usize = 0;
    assert(w@.take(0) =~= Seq::empty());
    while i < w.len()
        invariant
            i <= w@.len(),
            obeys_concrete_eq::<T>() ==> reduced@ == reduce_onto(stack@, w@.take(i as int)),
        decreases w@.len() - i,
    {
        let sym = w[i];
        let n = reduced.len();
        proof {
            assert(w@.take(i + 1).drop_last() =~= w@.take(i as int));
            assert(w@.take(i + 1).last() == sym);
        }
        if n > 0 && sym.inv().same(&reduced[n - 1]) {
            reduced.pop();
        } else {
            reduced.push(sym);
        }
        i = i + 1;
    }
    assert(w@.take(i as int) =~= w@);
    reduced
}

impl<T: Copy + Eq> Word<T> {
    /// Free reduction by a stack: each symbol cancels against the top of
    /// the stack if that is its inverse, and is pushed otherwise.
    pub fn reduce(v: Vec<Alphabet<T>>) -> (r: Vec<Alphabet<T>>)
        ensures
            obeys_concrete_eq::<T>() ==> r@ == reduce_spec(v@) && is_reduced(r@),
    {
        proof {
            assert(is_reduced(Seq::<Alphabet<T>>::empty()));
            lemma_reduce_onto_is_reduced(Seq::empty(), v@);
        }
        reduce_slice_onto(Vec::new(), v.as_slice())
    }

    /// The word that a list of symbols denotes: its reduction.
    pub fn from_symbols(symbols: &[Alphabet<T>]) -> (r: Self)
        ensures
            obeys_concrete_eq::<T>() ==> r@ == reduce_spec(symbols@) && Self::member(r@),
    {
        proof {
            assert(is_reduced(Seq::<Alphabet<T>>::empty()));
            lemma_reduce_onto_is_reduced(Seq::empty(), symbols@);
        }
        Word(reduce_slice_onto(Vec::new(), symbols))
    }

    /// The symbols of the word.
    pub fn symbols(&self) -> (r: &Vec<Alphabet<T>>)
        ensures
            r@ == self@,
    {
        &self.0
    }
}

impl<T: Copy + Eq> Element for Word<T> {
    open spec fn member(v: Seq<Alphabet<T>>) -> bool {
        is_reduced(v)
    }

    open spec fn eqv(a: Seq<Alphabet<T>>, b: Seq<Alphabet<T>>) -> bool {
        a == b
    }

    /// The generators' `==` is equality.
    open spec fn eq_req(a: Seq<Alphabet<T>>, b: Seq<Alphabet<T>>) -> bool {
        obeys_concrete_eq::<T>()
    }

    fn equals(&self, other: &Self) -> (r: bool) {
        if self.0.len() != other.0.len() {
            return false;
        }
        let mut i: usize = 0;
        while i < self.0.len()
            invariant
                i <= self@.len(),
                self@.len() == other@.len(),
                obeys_concrete_eq::<T>(),
                forall|j: int| 0 <= j < i ==> self@[j] == other@[j],
            decreases self@.len() - i,
        {
            if !self.0[i].same(&other.0[i]) {
                return false;
            }
            i = i + 1;
        }
        assert(self@ =~= other@);
        true
    }
}

impl<T: Copy + Eq> BinaryOperation<Multiplication, NonCommutative, Associative> for Word<T> {
    /// Concatenation, then reduction.
    open spec fn op_spec(a: Seq<Alphabet<T>>, b: Seq<Alphabet<T>>) -> Seq<Alphabet<T>> {
        reduce_spec(a + b)
    }

    /// Both words are reduced, and the generators' `==` is equality.
    open spec fn op_req(a: Seq<Alphabet<T>>, b: Seq<Alphabet<T>>) -> bool {
        is_reduced(a) && is_reduced(b) && obeys_concrete_eq::<T>()
    }

    fn op(&self, rhs: &Self) -> (r: Self) {
        let mut word: Vec<Alphabet<T>> = Vec::new();
        let mut i: usize = 0;
        while i < self.0.len()
            invariant
                i <= self@.len(),
                word@ == self@.take(i as int),
            decreases self@.len() - i,
        {
            word.push(self.0[i]);
            assert(word@ =~= self@.take(i + 1));
            i = i + 1;
        }
        proof {
            assert(self@.take(i as int) =~= self@);
            assert(Seq::<Alphabet<T>>::empty() + self@ =~= self@);
            lemma_reduce_of_reduced(Seq::empty(), self@);
            lemma_reduce_onto_concat(Seq::empty(), self@, rhs@);
            lemma_reduce_onto_is_reduced(self@, rhs@);
        }
        Word(reduce_slice_onto(word, rhs.0.as_slice()))
    }
}

impl<T: Copy + Eq> Identity<Multiplication> for Word<T> {
    /// The empty word.
    open spec fn id_spec() -> Seq<Alphabet<T>> {
        Seq::empty()
    }

    open spec fn id_req() -> bool {
        true
    }

    fn id() -> (r: Self) {
        Word(Vec::new())
    }
}

impl<T: Copy + Eq> Invertible<Multiplication> for Word<T> {
    open spec fn inv_spec(a: Seq<Alphabet<T>>) -> Seq<Alphabet<T>> {
        inverse_word(a)
    }

    open spec fn invertible(a: Seq<Alphabet<T>>) -> bool {
        is_reduced(a)
    }

    open spec fn inv_req(a: Seq<Alphabet<T>>) -> bool {
        is_reduced(a)
    }

    fn inv(&self) -> (r: Self) {
        let n = self.0.len();
        let mut word: Vec<Alphabet<T>> = Vec::new();
        let mut i: usize = 0;
        while i < n
            invariant
                i <= n,
                n == self@.len(),
                word@ == inverse_word(self@).take(i as int),
            decreases n - i,
        {
            word.push(self.0[n - 1 - i].inv());
            assert(word@ =~= inverse_word(self@).take(i + 1));
            i = i + 1;
        }
        proof {
            assert(inverse_word(self@).take(n as int) =~= inverse_word(self@));
            lemma_inverse_word(self@);
        }
        Word(word)
    }
}

impl<T: Copy + Eq> MonoidOperation<Multiplication, NonCommutative> for Word<T> {
    proof fn lemma_eqv_reflexive(a: Seq<Alphabet<T>>) {
    }

    proof fn lemma_eqv_symmetric(a: Seq<Alphabet<T>>, b: Seq<Alphabet<T>>) {
    }

    proof fn lemma_eqv_transitive(a: Seq<Alphabet<T>>, b: Seq<Alphabet<T>>, c: Seq<Alphabet<T>>) {
    }

    proof fn lemma_closed(a: Seq<Alphabet<T>>, b: Seq<Alphabet<T>>) {
        assert(is_reduced(Seq::<Alphabet<T>>::empty()));
        lemma_reduce_onto_is_reduced(Seq::empty(), a + b);
    }

    proof fn lemma_congruent(
        a1: Seq<Alphabet<T>>,
        a2: Seq<Alphabet<T>>,
        b1: Seq<Alphabet<T>>,
        b2: Seq<Alphabet<T>>,
    ) {
    }

    proof fn lemma_associative(a: Seq<Alphabet<T>>, b: Seq<Alphabet<T>>, c: Seq<Alphabet<T>>) {
        let empty = Seq::<Alphabet<T>>::empty();
        assert(is_reduced(empty));
        let ab = reduce_spec(a + b);
        let bc = reduce_spec(b + c);
        // (ab)c: the stack that ab leaves is ab itself
        lemma_reduce_onto_is_reduced(empty, a + b);
        lemma_reduce_onto_concat(empty, ab, c);
        assert(empty + ab =~= ab);
        lemma_reduce_of_reduced(empty, ab);
        lemma_reduce_onto_concat(empty, a + b, c);
        // a(bc): onto the stack that a leaves, bc does what b + c does
        lemma_reduce_onto_concat(empty, a, bc);
        lemma_reduce_onto_is_reduced(empty, a);
        lemma_reduce_onto_reduced_word(reduce_onto(empty, a), b + c);
        lemma_reduce_onto_concat(empty, a, b + c);
        assert((a + b) + c =~= a + (b + c));
    }

    proof fn lemma_commutative(a: Seq<Alphabet<T>>, b: Seq<Alphabet<T>>) {
    }

    proof fn lemma_identity(x: Seq<Alphabet<T>>) {
        let empty = Seq::<Alphabet<T>>::empty();
        assert(is_reduced(empty));
        assert(empty + x =~= x);
        assert(x + empty =~= x);
        lemma_reduce_of_reduced(empty, x);
    }
}

impl<T: Copy + Eq> GroupOperation<Multiplication, NonCommutative> for Word<T> {
    proof fn lemma_inverse(x: Seq<Alphabet<T>>) {
        lemma_inverse_word(x);
        lemma_word_times_inverse(x);
        lemma_word_times_inverse(inverse_word(x));
    }

    proof fn lemma_invertible_closed(a: Seq<Alphabet<T>>, b: Seq<Alphabet<T>>) {
        assert(is_reduced(Seq::<Alphabet<T>>::empty()));
        lemma_reduce_onto_is_reduced(Seq::empty(), a + b);
    }

    proof fn lemma_inverse_congruent(a: Seq<Alphabet<T>>, b: Seq<Alphabet<T>>) {
    }
}

} // verus!
