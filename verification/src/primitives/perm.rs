//! Permutations of {1, …, N}.
use crate::groups::GroupOperation;
use crate::monoid::MonoidOperation;
use crate::number_theory::{distinct_in_range, lemma_arrangement_is_onto, lemma_mod_below_three};
use crate::ops::{
    Associative, BinaryOperation, Element, Identity, Invertible, Multiplication, NonCommutative,
};
use vstd::prelude::*;
use vstd::std_specs::ops::MulSpecImpl;
use vstd::std_specs::convert::FromSpecImpl;

verus! {

/// A bijection of {1, …, N}, held as the array of its images: entry `i`
/// (counted from 0) is the image of `i + 1`.
///
/// The model is the sequence of images. A value is a member when it is a
/// bijection. `from` takes any array; `is_valid` tells whether it is one.
#[derive(Debug, PartialEq, Eq, Clone, Copy)]
pub struct Permutation<const N: usize>([usize; N]);

/// The images of an array, as a model.
pub open spec fn images<const N: usize>(a: [usize; N]) -> Seq<int> {
    Seq::new(N as nat, |i: int| a@[i] as int)
}

impl<const N: usize> View for Permutation<N> {
    type V = Seq<int>;

    closed spec fn view(&self) -> Seq<int> {
        images(self.0)
    }
}

/// `s` lists each of 1, …, n exactly once.
pub open spec fn is_permutation(s: Seq<int>, n: int) -> bool {
    s.len() == n && distinct_in_range(s, n)
}

/// The composition "apply `y` first, then `x`": i ↦ x(y(i)).
pub open spec fn compose(x: Seq<int>, y: Seq<int>) -> Seq<int> {
    Seq::new(y.len(), |i: int| x[y[i] - 1])
}

/// The permutation that fixes everything.
pub open spec fn identity(n: nat) -> Seq<int> {
    Seq::new(n, |i: int| i + 1)
}

/// A place where `s` takes the value `v`.
pub open spec fn position(s: Seq<int>, v: int) -> int {
    choose|j: int| 0 <= j < s.len() && s[j] == v
}

/// The inverse: the image of `k` is the one `j` with s(j) = k.
pub open spec fn inverse(s: Seq<int>) -> Seq<int> {
    Seq::new(s.len(), |k: int| position(s, k + 1) + 1)
}

/// In a permutation every value has exactly one place.
pub proof fn lemma_position(s: Seq<int>, v: int)
    requires
        is_permutation(s, s.len() as int),
        1 <= v <= s.len(),
    ensures
        0 <= position(s, v) < s.len(),
        s[position(s, v)] == v,
        forall|j: int| 0 <= j < s.len() && s[j] == v ==> j == position(s, v),
{
    lemma_arrangement_is_onto(s, s.len() as int, v);
    let p = position(s, v);
    assert forall|j: int| 0 <= j < s.len() && s[j] == v implies j == p by {
        if j < p {
            assert(s[j] != s[p]);
        } else if p < j {
            assert(s[p] != s[j]);
        }
    }
}

/// The inverse of a permutation is a permutation, and composes with it to
/// the identity on both sides.
pub proof fn lemma_inverse_is_inverse(s: Seq<int>)
    requires
        is_permutation(s, s.len() as int),
    ensures
        is_permutation(inverse(s), s.len() as int),
        compose(s, inverse(s)) == identity(s.len()),
        compose(inverse(s), s) == identity(s.len()),
{
    let n = s.len() as int;
    let t = inverse(s);
    assert forall|k: int| 0 <= k < n implies 1 <= #[trigger] t[k] <= n && s[t[k] - 1] == k + 1 by {
        lemma_position(s, k + 1);
    }
    assert forall|k1: int, k2: int| 0 <= k1 < k2 < n implies t[k1] != t[k2] by {
        assert(s[t[k1] - 1] == k1 + 1);
        assert(s[t[k2] - 1] == k2 + 1);
    }
    assert(compose(s, t) =~= identity(s.len()));
    assert forall|i: int| 0 <= i < n implies #[trigger] compose(t, s)[i] == i + 1 by {
        lemma_position(s, s[i]);
    }
    assert(compose(t, s) =~= identity(s.len()));
}

/// The composition of two permutations is a permutation.
pub proof fn lemma_compose_is_permutation(x: Seq<int>, y: Seq<int>)
    requires
        is_permutation(x, x.len() as int),
        is_permutation(y, x.len() as int),
    ensures
        is_permutation(compose(x, y), x.len() as int),
{
    let z = compose(x, y);
    assert forall|i: int| 0 <= i < z.len() implies 1 <= #[trigger] z[i] <= x.len() by {
        assert(1 <= y[i] <= x.len());
        assert(1 <= x[y[i] - 1] <= x.len());
    }
    assert forall|i: int, j: int| 0 <= i < j < z.len() implies z[i] != z[j] by {
        assert(y[i] != y[j]);
        if y[i] < y[j] {
            assert(x[y[i] - 1] != x[y[j] - 1]);
        } else {
            assert(x[y[j] - 1] != x[y[i] - 1]);
        }
    }
}

/// A sequence of machine numbers, as a sequence of integers.
pub open spec fn as_ints(s: Seq<usize>) -> Seq<int> {
    Seq::new(s.len(), |i: int| s[i] as int)
}

/// `s` after the first `k` steps of writing a cycle into it: step `i`
/// makes the `i`th entry of the cycle go to the next one, the last entry
/// to the first.
pub open spec fn apply_cycle(s: Seq<int>, cycle: Seq<int>, k: nat) -> Seq<int>
    decreases k,
{
    if k == 0 {
        s
    } else {
        apply_cycle(s, cycle, (k - 1) as nat).update(
            cycle[k - 1] - 1,
            cycle[(k as int) % (cycle.len() as int)],
        )
    }
}

/// The permutation that a cycle denotes: every entry of the cycle goes to
/// its successor in the cycle, everything else stays.
pub open spec fn cycle_spec(n: nat, cycle: Seq<int>) -> Seq<int> {
    apply_cycle(identity(n), cycle, cycle.len())
}

/// The permutation that a list of cycles denotes: the cycles are
/// multiplied from left to right, starting from the identity.
pub open spec fn cycles_spec(n: nat, cycles: Seq<Seq<int>>) -> Seq<int>
    decreases cycles.len(),
{
    if cycles.len() == 0 {
        identity(n)
    } else {
        compose(cycles_spec(n, cycles.drop_last()), cycle_spec(n, cycles.last()))
    }
}

/// The cycles of a list, as sequences of integers.
pub open spec fn cycles_as_ints(cycles: Seq<&[usize]>) -> Seq<Seq<int>> {
    Seq::new(cycles.len(), |k: int| as_ints(cycles[k]@))
}

/// What the first `k` steps of writing a cycle of pairwise different
/// entries do to the identity.
proof fn lemma_apply_cycle(n: nat, cycle: Seq<int>, k: nat)
    requires
        k <= cycle.len(),
        distinct_in_range(cycle, n as int),
    ensures
        apply_cycle(identity(n), cycle, k).len() == n,
        forall|i: int|
            0 <= i < k ==> apply_cycle(identity(n), cycle, k)[#[trigger] cycle[i] - 1] == cycle[(i
                + 1) % (cycle.len() as int)],
        forall|p: int|
            0 <= p < n && (forall|i: int| 0 <= i < k ==> cycle[i] != p + 1) ==> #[trigger] apply_cycle(
                identity(n),
                cycle,
                k,
            )[p] == p + 1,
    decreases k,
{
    if k > 0 {
        let before = apply_cycle(identity(n), cycle, (k - 1) as nat);
        let after = apply_cycle(identity(n), cycle, k);
        lemma_apply_cycle(n, cycle, (k - 1) as nat);
        assert(1 <= cycle[k - 1] <= n);
        assert forall|i: int| 0 <= i < k implies after[#[trigger] cycle[i] - 1] == cycle[(i + 1) % (
        cycle.len() as int)] by {
            if i < k - 1 {
                assert(cycle[i] != cycle[k - 1]);
                assert(before[cycle[i] - 1] == cycle[(i + 1) % (cycle.len() as int)]);
            }
        }
        assert forall|p: int|
            0 <= p < n && (forall|i: int| 0 <= i < k ==> cycle[i] != p + 1) implies #[trigger] after[p]
            == p + 1 by {
            assert(cycle[k - 1] != p + 1);
            assert(forall|i: int| 0 <= i < k - 1 ==> cycle[i] != p + 1);
            assert(before[p] == p + 1);
        }
    }
}

/// Where a cycle of pairwise different entries sends the point `p + 1`:
/// to the successor of the entry at the place returned, or, if −1 is
/// returned, to itself.
proof fn lemma_cycle_point(n: nat, cycle: Seq<int>, p: int) -> (i: int)
    requires
        distinct_in_range(cycle, n as int),
        0 <= p < n,
    ensures
        -1 <= i < cycle.len(),
        i >= 0 ==> cycle[i] == p + 1 && cycle_spec(n, cycle)[p] == cycle[(i + 1) % (
        cycle.len() as int)] && 0 <= (i + 1) % (cycle.len() as int) < cycle.len() && (i + 1) % (
        cycle.len() as int) == if i + 1 == cycle.len() {
            0
        } else {
            i + 1
        },
        i < 0 ==> cycle_spec(n, cycle)[p] == p + 1 && forall|j: int|
            0 <= j < cycle.len() ==> cycle[j] != p + 1,
        1 <= cycle_spec(n, cycle)[p] <= n,
{
    let m = cycle.len() as int;
    lemma_apply_cycle(n, cycle, cycle.len());
    if exists|i: int| 0 <= i < m && cycle[i] == p + 1 {
        let i = choose|i: int| 0 <= i < m && cycle[i] == p + 1;
        lemma_mod_below_three(i + 1, m);
        assert(cycle_spec(n, cycle)[cycle[i] - 1] == cycle[(i + 1) % m]);
        assert(1 <= cycle[(i + 1) % m] <= n);
        i
    } else {
        -1
    }
}

/// A cycle of pairwise different entries sends different points to
/// different points.
proof fn lemma_cycle_injective(n: nat, cycle: Seq<int>, u: int, v: int)
    requires
        distinct_in_range(cycle, n as int),
        0 <= u < v < n,
    ensures
        cycle_spec(n, cycle)[u] != cycle_spec(n, cycle)[v],
{
    let m = cycle.len() as int;
    let i = lemma_cycle_point(n, cycle, u);
    let j = lemma_cycle_point(n, cycle, v);
    if i >= 0 && j >= 0 {
        let si = (i + 1) % m;
        let sj = (j + 1) % m;
        assert(i != j);
        assert(si != sj);
        if si < sj {
            assert(cycle[si] != cycle[sj]);
        } else {
            assert(cycle[sj] != cycle[si]);
        }
    } else if i >= 0 {
        assert(cycle[(i + 1) % m] != v + 1);
    } else if j >= 0 {
        assert(cycle[(j + 1) % m] != u + 1);
    }
}

/// A cycle of pairwise different entries denotes a permutation, which
/// sends each entry to its successor and fixes everything else.
pub proof fn lemma_cycle_is_permutation(n: nat, cycle: Seq<int>)
    requires
        distinct_in_range(cycle, n as int),
    ensures
        is_permutation(cycle_spec(n, cycle), n as int),
        forall|i: int|
            0 <= i < cycle.len() ==> cycle_spec(n, cycle)[#[trigger] cycle[i] - 1] == cycle[(i + 1)
                % (cycle.len() as int)],
        forall|p: int|
            0 <= p < n && (forall|i: int| 0 <= i < cycle.len() ==> cycle[i] != p + 1)
                ==> #[trigger] cycle_spec(n, cycle)[p] == p + 1,
{
    let r = cycle_spec(n, cycle);
    lemma_apply_cycle(n, cycle, cycle.len());
    assert forall|p: int| 0 <= p < n implies 1 <= #[trigger] r[p] <= n by {
        lemma_cycle_point(n, cycle, p);
    }
    assert forall|u: int, v: int| 0 <= u < v < n implies r[u] != r[v] by {
        lemma_cycle_injective(n, cycle, u, v);
    }
}

/// A list of cycles, each of pairwise different entries, denotes a
/// permutation.
pub proof fn lemma_cycles_is_permutation(n: nat, cycles: Seq<Seq<int>>)
    requires
        forall|k: int| 0 <= k < cycles.len() ==> distinct_in_range(#[trigger] cycles[k], n as int),
    ensures
        is_permutation(cycles_spec(n, cycles), n as int),
    decreases cycles.len(),
{
    if cycles.len() > 0 {
        lemma_cycles_is_permutation(n, cycles.drop_last());
        lemma_cycle_is_permutation(n, cycles.last());
        lemma_compose_is_permutation(
            cycles_spec(n, cycles.drop_last()),
            cycle_spec(n, cycles.last()),
        );
    }
}

impl<const N: usize> From<[usize; N]> for Permutation<N> {
    /// Takes the array as the images of 1, …, N, without checking that it
    /// is a bijection.
    fn from(value: [usize; N]) -> (r: Self)
        ensures
            r@ == images(value),
    {
        Permutation(value)
    }
}

impl<const N: usize> FromSpecImpl<[usize; N]> for Permutation<N> {
    open spec fn obeys_from_spec() -> bool {
        true
    }

    closed spec fn from_spec(value: [usize; N]) -> Self {
        Permutation(value)
    }
}

impl<const N: usize> Permutation<N> {
    /// Whether the images held are a bijection of {1, …, N}.
    pub fn is_valid(&self) -> (r: bool)
        ensures
            r == Self::member(self@),
    {
        let mut seen = [false;N];
        let mut i: usize = 0;
        while i < N
            invariant
                i <= N,
                forall|j: int| 0 <= j < i ==> 1 <= #[trigger] self@[j] <= N,
                forall|j1: int, j2: int| 0 <= j1 < j2 < i ==> self@[j1] != self@[j2],
                forall|v: int|
                    0 <= v < N ==> (#[trigger] seen@[v] <==> exists|j: int|
                        0 <= j < i && self@[j] == v + 1),
            decreases N - i,
        {
            let v = self.0[i];
            assert(self@[i as int] == v);
            if v < 1 || v > N {
                return false;
            }
            if seen[v - 1] {
                let ghost j = choose|j: int| 0 <= j < i && self@[j] == v;
                assert(self@[j] == self@[i as int]);
                return false;
            }
            let ghost before = seen@;
            seen[v - 1] = true;
            assert forall|w: int| 0 <= w < N implies (#[trigger] seen@[w] <==> exists|j: int|
                0 <= j < i + 1 && self@[j] == w + 1) by {
                if w == v - 1 {
                    assert(self@[i as int] == w + 1);
                } else {
                    assert(seen@[w] == before[w]);
                    if before[w] {
                        let j = choose|j: int| 0 <= j < i && self@[j] == w + 1;
                        assert(0 <= j < i + 1 && self@[j] == w + 1);
                    }
                }
            }
            assert forall|j1: int, j2: int| 0 <= j1 < j2 < i + 1 implies self@[j1] != self@[j2] by {
                if j2 == i && self@[j1] == v {
                    assert(before[v - 1]);
                }
            }
            i = i + 1;
        }
        true
    }

    /// The permutation that a cycle denotes: each entry goes to the next,
    /// the last to the first, and everything else stays. The empty cycle
    /// denotes the identity.
    pub fn from_cycle(cycle: &[usize]) -> (r: Self)
        requires
            forall|i: int| 0 <= i < cycle@.len() ==> 1 <= #[trigger] cycle@[i] <= N,
        ensures
            r@ == cycle_spec(N as nat, as_ints(cycle@)),
            distinct_in_range(as_ints(cycle@), N as int) ==> Self::member(r@),
    {
        let mut out = Self::id().0;
        let m = cycle.len();
        let mut i: usize = 0;
        let ghost ints = as_ints(cycle@);
        while i < m
            invariant
                i <= m,
                m == cycle@.len(),
                ints == as_ints(cycle@),
                forall|j: int| 0 <= j < cycle@.len() ==> 1 <= #[trigger] cycle@[j] <= N,
                images(out) == apply_cycle(identity(N as nat), ints, i as nat),
            decreases m - i,
        {
            let from = cycle[i] - 1;
            proof {
                lemma_mod_below_three(i + 1, m as int);
            }
            let to = cycle[(i + 1) % m];
            let ghost before = images(out);
            out[from] = to;
            assert(images(out) =~= before.update(from as int, to as int));
            assert(ints[i as int] - 1 == from);
            assert(ints[((i + 1) as int) % (m as int)] == to);
            i = i + 1;
        }
        proof {
            if distinct_in_range(ints, N as int) {
                lemma_cycle_is_permutation(N as nat, ints);
            }
        }
        Permutation(out)
    }

    /// The permutation that a list of cycles denotes: the product of the
    /// cycles, taken from left to right.
    pub fn from_cycles(cycles: &[&[usize]]) -> (r: Self)
        requires
            forall|k: int|
                0 <= k < cycles@.len() ==> distinct_in_range(
                    as_ints((#[trigger] cycles@[k])@),
                    N as int,
                ),
        ensures
            r@ == cycles_spec(N as nat, cycles_as_ints(cycles@)),
            Self::member(r@),
    {
        let ghost all = cycles_as_ints(cycles@);
        let mut out = Self::id();
        let mut k: usize = 0;
        proof {
            lemma_cycles_is_permutation(N as nat, all.take(0));
        }
        while k < cycles.len()
            invariant
                k <= cycles@.len(),
                all == cycles_as_ints(cycles@),
                forall|j: int|
                    0 <= j < cycles@.len() ==> distinct_in_range(
                        as_ints((#[trigger] cycles@[j])@),
                        N as int,
                    ),
                out@ == cycles_spec(N as nat, all.take(k as int)),
                Self::member(out@),
            decreases cycles@.len() - k,
        {
            let cycle = cycles[k];
            assert(distinct_in_range(as_ints(cycles@[k as int]@), N as int));
            assert forall|i: int| 0 <= i < cycle@.len() implies 1 <= #[trigger] cycle@[i] <= N by {
                assert(1 <= as_ints(cycle@)[i] <= N);
            }
            let next = Self::from_cycle(cycle);
            proof {
                let longer = all.take(k + 1);
                assert(longer.drop_last() =~= all.take(k as int));
                assert(longer.last() == as_ints(cycle@));
            }
            out = out.op(&next);
            k = k + 1;
        }
        assert(all.take(k as int) =~= all);
        out
    }

    /// The image of `point` under the permutation.
    pub fn image(&self, point: usize) -> (r: usize)
        requires
            Self::member(self@),
            1 <= point <= N,
        ensures
            r == self@[point - 1],
            1 <= r <= N,
    {
        self.0[point - 1]
    }

    /// The images of 1, …, N.
    pub fn to_array(&self) -> (r: [usize; N])
        ensures
            images(r) == self@,
    {
        self.0
    }
}

impl<const N: usize> Element for Permutation<N> {
    open spec fn member(v: Seq<int>) -> bool {
        is_permutation(v, N as int)
    }

    open spec fn eqv(a: Seq<int>, b: Seq<int>) -> bool {
        a == b
    }

    open spec fn eq_req(a: Seq<int>, b: Seq<int>) -> bool {
        true
    }

    fn equals(&self, other: &Self) -> (r: bool) {
        let mut i: usize = 0;
        while i < N
            invariant
                i <= N,
                forall|j: int| 0 <= j < i ==> self@[j] == other@[j],
            decreases N - i,
        {
            if self.0[i] != other.0[i] {
                assert(self@[i as int] != other@[i as int]);
                return false;
            }
            i = i + 1;
        }
        assert(self@ =~= other@);
        true
    }
}

impl<const N: usize> BinaryOperation<Multiplication, NonCommutative, Associative> for Permutation<
    N,
> {
    open spec fn op_spec(a: Seq<int>, b: Seq<int>) -> Seq<int> {
        compose(a, b)
    }

    open spec fn op_req(a: Seq<int>, b: Seq<int>) -> bool {
        Self::member(a) && Self::member(b)
    }

    /// Composition, "apply `rhs` first": the image of i is self(rhs(i)).
    fn op(&self, rhs: &Self) -> (r: Self) {
        let mut out = [0usize;N];
        let mut i: usize = 0;
        while i < N
            invariant
                i <= N,
                is_permutation(self@, N as int),
                is_permutation(rhs@, N as int),
                forall|j: int| 0 <= j < i ==> #[trigger] out@[j] == self@[rhs@[j] - 1],
            decreases N - i,
        {
            let via = rhs.0[i];
            assert(rhs@[i as int] == via);
            out[i] = self.0[via - 1];
            i = i + 1;
        }
        proof {
            assert(images(out) =~= compose(self@, rhs@));
            lemma_compose_is_permutation(self@, rhs@);
        }
        Permutation(out)
    }
}

impl<const N: usize> Identity<Multiplication> for Permutation<N> {
    open spec fn id_spec() -> Seq<int> {
        identity(N as nat)
    }

    open spec fn id_req() -> bool {
        true
    }

    fn id() -> (r: Self) {
        let mut out = [0usize;N];
        let mut i: usize = 0;
        while i < N
            invariant
                i <= N,
                forall|j: int| 0 <= j < i ==> #[trigger] out@[j] == j + 1,
            decreases N - i,
        {
            out[i] = i + 1;
            i = i + 1;
        }
        proof {
            assert(images(out) =~= identity(N as nat));
        }
        Permutation(out)
    }
}

impl<const N: usize> Invertible<Multiplication> for Permutation<N> {
    open spec fn inv_spec(a: Seq<int>) -> Seq<int> {
        inverse(a)
    }

    open spec fn invertible(a: Seq<int>) -> bool {
        Self::member(a)
    }

    open spec fn inv_req(a: Seq<int>) -> bool {
        Self::member(a)
    }

    /// The true inverse: entry `v − 1` of the result is the place where
    /// `self` takes the value `v`.
    fn inv(&self) -> (r: Self) {
        let mut out = [0usize;N];
        let mut i: usize = 0;
        while i < N
            invariant
                i <= N,
                is_permutation(self@, N as int),
                forall|j: int| 0 <= j < i ==> #[trigger] out@[self@[j] - 1] == j + 1,
            decreases N - i,
        {
            let v = self.0[i];
            assert(self@[i as int] == v);
            let ghost before = out@;
            out[v - 1] = i + 1;
            assert forall|j: int| 0 <= j < i + 1 implies #[trigger] out@[self@[j] - 1] == j
                + 1 by {
                if j < i {
                    assert(self@[j] != self@[i as int]);
                    assert(before[self@[j] - 1] == j + 1);
                }
            }
            i = i + 1;
        }
        proof {
            assert forall|k: int| 0 <= k < N implies #[trigger] images(out)[k] == inverse(
                self@,
            )[k] by {
                lemma_position(self@, k + 1);
                assert(out@[self@[position(self@, k + 1)] - 1] == position(self@, k + 1) + 1);
            }
            assert(images(out) =~= inverse(self@));
            lemma_inverse_is_inverse(self@);
        }
        Permutation(out)
    }
}

impl<const N: usize> MonoidOperation<Multiplication, NonCommutative> for Permutation<N> {
    proof fn lemma_eqv_reflexive(a: Seq<int>) {
    }

    proof fn lemma_eqv_symmetric(a: Seq<int>, b: Seq<int>) {
    }

    proof fn lemma_eqv_transitive(a: Seq<int>, b: Seq<int>, c: Seq<int>) {
    }

    proof fn lemma_closed(a: Seq<int>, b: Seq<int>) {
        lemma_compose_is_permutation(a, b);
    }

    proof fn lemma_congruent(a1: Seq<int>, a2: Seq<int>, b1: Seq<int>, b2: Seq<int>) {
    }

    proof fn lemma_associative(a: Seq<int>, b: Seq<int>, c: Seq<int>) {
        assert forall|i: int| 0 <= i < N implies 1 <= #[trigger] c[i] <= N && 1 <= b[c[i] - 1]
            <= N by {
            assert(1 <= c[i] <= N);
            assert(1 <= b[c[i] - 1] <= N);
        }
        assert(compose(compose(a, b), c) =~= compose(a, compose(b, c)));
    }

    proof fn lemma_commutative(a: Seq<int>, b: Seq<int>) {
    }

    proof fn lemma_identity(x: Seq<int>) {
        let e = identity(N as nat);
        assert(is_permutation(e, N as int));
        assert forall|i: int| 0 <= i < N implies #[trigger] compose(e, x)[i] == x[i] by {
            assert(1 <= x[i] <= N);
        }
        assert(compose(e, x) =~= x);
        assert(compose(x, e) =~= x);
    }
}

impl<const N: usize> GroupOperation<Multiplication, NonCommutative> for Permutation<N> {
    proof fn lemma_inverse(x: Seq<int>) {
        lemma_inverse_is_inverse(x);
    }

    proof fn lemma_invertible_closed(a: Seq<int>, b: Seq<int>) {
        lemma_compose_is_permutation(a, b);
    }

    proof fn lemma_inverse_congruent(a: Seq<int>, b: Seq<int>) {
    }
}

// ---------- operators ----------
impl<const N: usize> core::ops::Mul for Permutation<N> {
    type Output = Permutation<N>;

    /// The composition, "apply `rhs` first".
    fn mul(self, rhs: Permutation<N>) -> (r: Permutation<N>)
        ensures
            r@ == <Permutation<N> as BinaryOperation<Multiplication, NonCommutative, Associative>>::op_spec(self@, rhs@),
            Self::member(r@),
    {
        <Permutation<N> as BinaryOperation<Multiplication, NonCommutative, Associative>>::op(&self, &rhs)
    }
}

impl<const N: usize> MulSpecImpl for Permutation<N> {
    /// The result is stated on models, by the `ensures` of `mul`.
    open spec fn obeys_mul_spec() -> bool {
        false
    }

    open spec fn mul_req(self, rhs: Permutation<N>) -> bool {
        <Permutation<N> as BinaryOperation<Multiplication, NonCommutative, Associative>>::op_req(self@, rhs@)
    }

    open spec fn mul_spec(self, rhs: Permutation<N>) -> Permutation<N> {
        arbitrary()
    }
}

} // verus!
