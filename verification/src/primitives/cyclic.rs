//! The integers modulo `N`.
use crate::fields::FieldOperation;
use crate::groups::GroupOperation;
use crate::monoid::MonoidOperation;
use crate::number_theory::{lemma_fermat_little, lemma_prime_divides_product};
use crate::ops::{
    Addition, Associative, BinaryOperation, Commutative, Element, Identity, Invertible,
    Multiplication,
};
use crate::rings::{Factorability, Integrality, RingOperation};
use crate::utils::is_prime_spec;
use vstd::arithmetic::div_mod::{
    lemma_add_mod_noop, lemma_mod_bound, lemma_mod_self_0, lemma_mul_mod_noop_general,
    lemma_small_mod,
};
use vstd::arithmetic::mul::{
    lemma_mul_is_associative, lemma_mul_is_commutative, lemma_mul_is_distributive_add,
    lemma_mul_is_distributive_add_other_way,
};
use vstd::arithmetic::power::{lemma_pow0, lemma_pow_mod_noop, lemma_pow_multiplies, pow};
use vstd::prelude::*;
use vstd::std_specs::ops::{AddSpecImpl, MulSpecImpl};
use vstd::std_specs::convert::FromSpecImpl;

verus! {

/// An element of Z/NZ, held as its least non-negative residue.
///
/// The model is that residue. A value is a member when it is reduced;
/// every value that `from` makes for `N > 0` is. For `N = 0` the type has
/// no members.
#[derive(Debug, Clone, Copy, PartialEq, Eq)]
pub struct CyclicNumber<const N: usize>(usize);

impl<const N: usize> View for CyclicNumber<N> {
    type V = int;

    closed spec fn view(&self) -> int {
        self.0 as int
    }
}

/// (a · b) mod n, computed without overflow.
fn mul_mod(a: usize, b: usize, n: usize) -> (r: usize)
    requires
        n > 0,
    ensures
        r == (a * b) % (n as int),
{
    assert(0 <= a * b <= usize::MAX * usize::MAX) by (nonlinear_arith)
        requires
            0 <= a <= usize::MAX,
            0 <= b <= usize::MAX,
    ;
    let wide: u128 = (a as u128) * (b as u128);
    (wide % (n as u128)) as usize
}

/// One round of square-and-multiply keeps result · base^exp unchanged
/// modulo n.
proof fn lemma_square_and_multiply(result: int, base: int, exp: nat, n: int)
    requires
        n > 0,
        exp > 0,
    ensures
        ((if exp % 2 == 1 {
            (result * base) % n
        } else {
            result
        }) * pow((base * base) % n, exp / 2)) % n == (result * pow(base, exp)) % n,
{
    let half = exp / 2;
    let square = base * base;
    assert(pow(base, 2 * half) == pow(square, half)) by {
        reveal_with_fuel(pow, 3);
        assert(pow(base, 2) == base * base) by (nonlinear_arith)
            requires
                pow(base, 2) == base * (base * 1),
        ;
        lemma_pow_multiplies(base, 2, half);
    }
    lemma_pow_mod_noop(square, half, n);
    if exp % 2 == 1 {
        assert(pow(base, exp) == base * pow(base, (exp - 1) as nat)) by {
            reveal(pow);
        }
        lemma_mul_is_associative(result, base, pow(square, half));
        lemma_mul_mod_noop_general(result * base, pow(square % n, half), n);
        lemma_mul_mod_noop_general(result * base, pow(square, half), n);
    } else {
        lemma_mul_mod_noop_general(result, pow(square % n, half), n);
        lemma_mul_mod_noop_general(result, pow(square, half), n);
    }
}

impl<const N: usize> From<usize> for CyclicNumber<N> {
    /// The residue class of `value`. For `N = 0` nothing is reduced.
    fn from(value: usize) -> (r: Self)
        ensures
            N > 0 ==> r@ == value % N && Self::member(r@),
    {
        if N == 0 {
            CyclicNumber(value)
        } else {
            CyclicNumber(value % N)
        }
    }
}

impl<const N: usize> FromSpecImpl<usize> for CyclicNumber<N> {
    open spec fn obeys_from_spec() -> bool {
        true
    }

    closed spec fn from_spec(value: usize) -> Self {
        if N == 0 {
            CyclicNumber(value)
        } else {
            CyclicNumber((value % N) as usize)
        }
    }
}

impl<const N: usize> CyclicNumber<N> {
    /// The residue held, in `0..N` for a member.
    pub fn value(&self) -> (r: usize)
        ensures
            r == self@,
    {
        self.0
    }
}

impl<const N: usize> Element for CyclicNumber<N> {
    open spec fn member(v: int) -> bool {
        0 <= v < N
    }

    open spec fn eqv(a: int, b: int) -> bool {
        a == b
    }

    open spec fn eq_req(a: int, b: int) -> bool {
        true
    }

    fn equals(&self, other: &Self) -> (r: bool) {
        self.0 == other.0
    }
}

// ---------- addition ----------
impl<const N: usize> BinaryOperation<Addition, Commutative, Associative> for CyclicNumber<N> {
    open spec fn op_spec(a: int, b: int) -> int {
        (a + b) % (N as int)
    }

    open spec fn op_req(a: int, b: int) -> bool {
        Self::member(a) && Self::member(b)
    }

    fn op(&self, rhs: &Self) -> (r: Self) {
        let wide: u128 = self.0 as u128 + rhs.0 as u128;
        CyclicNumber((wide % (N as u128)) as usize)
    }
}

impl<const N: usize> Identity<Addition> for CyclicNumber<N> {
    open spec fn id_spec() -> int {
        0
    }

    open spec fn id_req() -> bool {
        N > 0
    }

    fn id() -> (r: Self) {
        CyclicNumber(0)
    }
}

impl<const N: usize> Invertible<Addition> for CyclicNumber<N> {
    open spec fn inv_spec(a: int) -> int {
        (N - a) % (N as int)
    }

    open spec fn invertible(a: int) -> bool {
        Self::member(a)
    }

    open spec fn inv_req(a: int) -> bool {
        Self::member(a)
    }

    fn inv(&self) -> (r: Self) {
        CyclicNumber((N - self.0) % N)
    }
}

impl<const N: usize> MonoidOperation<Addition, Commutative> for CyclicNumber<N> {
    proof fn lemma_eqv_reflexive(a: int) {
    }

    proof fn lemma_eqv_symmetric(a: int, b: int) {
    }

    proof fn lemma_eqv_transitive(a: int, b: int, c: int) {
    }

    proof fn lemma_closed(a: int, b: int) {
        lemma_mod_bound(a + b, N as int);
    }

    proof fn lemma_congruent(a1: int, a2: int, b1: int, b2: int) {
    }

    proof fn lemma_associative(a: int, b: int, c: int) {
        let n = N as int;
        lemma_add_mod_noop(a + b, c, n);
        lemma_add_mod_noop(a, b + c, n);
        lemma_small_mod(a as nat, N as nat);
        lemma_small_mod(c as nat, N as nat);
    }

    proof fn lemma_commutative(a: int, b: int) {
    }

    proof fn lemma_identity(x: int) {
        lemma_small_mod(x as nat, N as nat);
    }
}

impl<const N: usize> GroupOperation<Addition, Commutative> for CyclicNumber<N> {
    proof fn lemma_inverse(x: int) {
        let n = N as int;
        lemma_mod_bound(n - x, n);
        if x == 0 {
            lemma_mod_self_0(n);
            lemma_small_mod(0, N as nat);
        } else {
            lemma_small_mod((n - x) as nat, N as nat);
            lemma_mod_self_0(n);
        }
    }

    proof fn lemma_invertible_closed(a: int, b: int) {
        lemma_mod_bound(a + b, N as int);
    }

    proof fn lemma_inverse_congruent(a: int, b: int) {
    }
}

// ---------- multiplication ----------
impl<const N: usize> BinaryOperation<Multiplication, Commutative, Associative> for CyclicNumber<
    N,
> {
    open spec fn op_spec(a: int, b: int) -> int {
        (a * b) % (N as int)
    }

    open spec fn op_req(a: int, b: int) -> bool {
        Self::member(a) && Self::member(b)
    }

    fn op(&self, rhs: &Self) -> (r: Self) {
        proof {
            lemma_mod_bound(self@ * rhs@, N as int);
        }
        CyclicNumber(mul_mod(self.0, rhs.0, N))
    }
}

impl<const N: usize> Identity<Multiplication> for CyclicNumber<N> {
    /// The class of 1, which is 0 in the trivial ring Z/1Z.
    open spec fn id_spec() -> int {
        1int % (N as int)
    }

    open spec fn id_req() -> bool {
        N > 0
    }

    fn id() -> (r: Self) {
        CyclicNumber(1 % N)
    }
}

impl<const N: usize> Invertible<Multiplication> for CyclicNumber<N> {
    /// By Fermat's little theorem the inverse of a modulo a prime N is
    /// a^(N−2).
    open spec fn inv_spec(a: int) -> int {
        pow(a, (N - 2) as nat) % (N as int)
    }

    /// The modulus is prime and the element is not 0.
    open spec fn invertible(a: int) -> bool {
        is_prime_spec(N as int) && 1 <= a < N
    }

    open spec fn inv_req(a: int) -> bool {
        is_prime_spec(N as int) && 1 <= a < N
    }

    /// Computes a^(N−2) mod N by square-and-multiply.
    fn inv(&self) -> (r: Self) {
        let mut base: usize = self.0;
        let mut exp: usize = N - 2;
        let mut result: usize = 1;
        proof {
            lemma_small_mod(1, N as nat);
            assert(1 * pow(self@, exp as nat) == pow(self@, exp as nat));
        }
        while exp > 0
            invariant
                N >= 2,
                base < N,
                result < N,
                (result * pow(base as int, exp as nat)) % (N as int) == pow(
                    self@,
                    (N - 2) as nat,
                ) % (N as int),
            decreases exp,
        {
            proof {
                lemma_square_and_multiply(result as int, base as int, exp as nat, N as int);
                lemma_mod_bound(result * base, N as int);
                lemma_mod_bound(base * base, N as int);
            }
            if exp % 2 == 1 {
                result = mul_mod(result, base, N);
            }
            base = mul_mod(base, base, N);
            exp = exp / 2;
        }
        proof {
            lemma_pow0(base as int);
            lemma_small_mod(result as nat, N as nat);
        }
        CyclicNumber(result)
    }
}

impl<const N: usize> MonoidOperation<Multiplication, Commutative> for CyclicNumber<N> {
    proof fn lemma_eqv_reflexive(a: int) {
    }

    proof fn lemma_eqv_symmetric(a: int, b: int) {
    }

    proof fn lemma_eqv_transitive(a: int, b: int, c: int) {
    }

    proof fn lemma_closed(a: int, b: int) {
        lemma_mod_bound(a * b, N as int);
    }

    proof fn lemma_congruent(a1: int, a2: int, b1: int, b2: int) {
    }

    proof fn lemma_associative(a: int, b: int, c: int) {
        let n = N as int;
        lemma_mul_mod_noop_general(a * b, c, n);
        lemma_mul_mod_noop_general(a, b * c, n);
        lemma_mul_is_associative(a, b, c);
    }

    proof fn lemma_commutative(a: int, b: int) {
        lemma_mul_is_commutative(a, b);
    }

    proof fn lemma_identity(x: int) {
        let n = N as int;
        lemma_mod_bound(1, n);
        lemma_mul_mod_noop_general(1, x, n);
        lemma_mul_mod_noop_general(x, 1, n);
        lemma_small_mod(x as nat, N as nat);
    }
}

/// For a prime modulus, an element times its (N−2)th power is 1.
proof fn lemma_fermat_inverse(x: int, n: int)
    requires
        is_prime_spec(n),
        1 <= x < n,
    ensures
        (x * (pow(x, (n - 2) as nat) % n)) % n == 1,
        ((pow(x, (n - 2) as nat) % n) * x) % n == 1,
        1 <= pow(x, (n - 2) as nat) % n < n,
{
    let y = pow(x, (n - 2) as nat);
    lemma_small_mod(x as nat, n as nat);
    lemma_fermat_little(x, n);
    assert(pow(x, (n - 1) as nat) == x * y) by {
        reveal(pow);
    }
    lemma_mul_mod_noop_general(x, y, n);
    lemma_mul_is_commutative(x, y % n);
    lemma_mod_bound(y, n);
    if y % n == 0 {
        assert(x * (y % n) == 0) by (nonlinear_arith)
            requires
                y % n == 0,
        ;
        lemma_small_mod(0, n as nat);
    }
}

impl<const N: usize> GroupOperation<Multiplication, Commutative> for CyclicNumber<N> {
    proof fn lemma_inverse(x: int) {
        lemma_fermat_inverse(x, N as int);
        lemma_small_mod(1, N as nat);
    }

    proof fn lemma_invertible_closed(a: int, b: int) {
        let n = N as int;
        lemma_mod_bound(a * b, n);
        if (a * b) % n == 0 {
            lemma_prime_divides_product(n, a, b);
            lemma_small_mod(a as nat, N as nat);
            lemma_small_mod(b as nat, N as nat);
        }
    }

    proof fn lemma_inverse_congruent(a: int, b: int) {
    }
}

// ---------- ring and field ----------
impl<const N: usize, I: Integrality, F: Factorability> RingOperation<
    Commutative,
    I,
    F,
> for CyclicNumber<N> {
    /// Z/NZ has no zero divisors exactly when N is prime.
    open spec fn is_integral_domain() -> bool {
        is_prime_spec(N as int)
    }

    proof fn lemma_negation_total(x: int) {
    }

    proof fn lemma_distributive(a: int, b: int, c: int) {
        let n = N as int;
        lemma_mul_mod_noop_general(a, b + c, n);
        lemma_add_mod_noop(a * b, a * c, n);
        lemma_mul_is_distributive_add(a, b, c);
        lemma_mul_mod_noop_general(a + b, c, n);
        lemma_add_mod_noop(a * c, b * c, n);
        lemma_mul_is_distributive_add_other_way(c, a, b);
    }

    proof fn lemma_integral(a: int, b: int) {
        let n = N as int;
        if (a * b) % n == 0 {
            lemma_prime_divides_product(n, a, b);
            lemma_small_mod(a as nat, N as nat);
            lemma_small_mod(b as nat, N as nat);
        }
    }

    proof fn lemma_nontrivial() {
        lemma_small_mod(1, N as nat);
    }
}

impl<const N: usize> FieldOperation for CyclicNumber<N> {
    proof fn lemma_nonzero_invertible(x: int) {
    }
}

// ---------- operators ----------
impl<const N: usize> core::ops::Add for CyclicNumber<N> {
    type Output = CyclicNumber<N>;

    /// The sum.
    fn add(self, rhs: CyclicNumber<N>) -> (r: CyclicNumber<N>)
        ensures
            r@ == <CyclicNumber<N> as BinaryOperation<Addition, Commutative, Associative>>::op_spec(self@, rhs@),
            Self::member(r@),
    {
        <CyclicNumber<N> as BinaryOperation<Addition, Commutative, Associative>>::op(&self, &rhs)
    }
}

impl<const N: usize> AddSpecImpl for CyclicNumber<N> {
    /// The result is stated on models, by the `ensures` of `add`.
    open spec fn obeys_add_spec() -> bool {
        false
    }

    open spec fn add_req(self, rhs: CyclicNumber<N>) -> bool {
        <CyclicNumber<N> as BinaryOperation<Addition, Commutative, Associative>>::op_req(self@, rhs@)
    }

    open spec fn add_spec(self, rhs: CyclicNumber<N>) -> CyclicNumber<N> {
        arbitrary()
    }
}

impl<const N: usize> core::ops::Mul for CyclicNumber<N> {
    type Output = CyclicNumber<N>;

    /// The product.
    fn mul(self, rhs: CyclicNumber<N>) -> (r: CyclicNumber<N>)
        ensures
            r@ == <CyclicNumber<N> as BinaryOperation<Multiplication, Commutative, Associative>>::op_spec(self@, rhs@),
            Self::member(r@),
    {
        <CyclicNumber<N> as BinaryOperation<Multiplication, Commutative, Associative>>::op(&self, &rhs)
    }
}

impl<const N: usize> MulSpecImpl for CyclicNumber<N> {
    /// The result is stated on models, by the `ensures` of `mul`.
    open spec fn obeys_mul_spec() -> bool {
        false
    }

    open spec fn mul_req(self, rhs: CyclicNumber<N>) -> bool {
        <CyclicNumber<N> as BinaryOperation<Multiplication, Commutative, Associative>>::op_req(self@, rhs@)
    }

    open spec fn mul_spec(self, rhs: CyclicNumber<N>) -> CyclicNumber<N> {
        arbitrary()
    }
}

} // verus!
