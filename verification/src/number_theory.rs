//! Arithmetic modulo a prime: what the multiplicative structure of the
//! integers modulo a prime rests on.
use crate::utils::is_prime_spec;
use vstd::arithmetic::div_mod::{
    lemma_fundamental_div_mod, lemma_fundamental_div_mod_converse_mod, lemma_mod_bound, lemma_mod_equivalence,
    lemma_mod_multiples_basic, lemma_mod_pos_bound, lemma_mul_mod_noop_general, lemma_mul_mod_noop_left, lemma_small_mod,
};
use vstd::arithmetic::power::{lemma_pow0, pow};
use vstd::prelude::*;

verus! {

/// The remainder of a number below 3n, without division.
pub proof fn lemma_mod_below_three(x: int, n: int)
    requires
        n > 0,
        0 <= x < 3 * n,
    ensures
        x % n == if x < n {
            x
        } else if x < 2 * n {
            x - n
        } else {
            x - 2 * n
        },
{
    if x < n {
        lemma_fundamental_div_mod_converse_mod(x, n, 0, x);
    } else if x < 2 * n {
        lemma_fundamental_div_mod_converse_mod(x, n, 1, x - n);
    } else {
        lemma_fundamental_div_mod_converse_mod(x, n, 2, x - 2 * n);
    }
}

/// For a prime `p` and `0 < c < p`: if `p` divides `c * b`, it divides `b`.
/// By descent on `c`: the remainder of `p` by `c` is a smaller such factor.
proof fn lemma_small_factor(p: int, c: int, b: int)
    requires
        is_prime_spec(p),
        0 < c < p,
        (c * b) % p == 0,
    ensures
        b % p == 0,
    decreases c,
{
    if c == 1 {
        assert(c * b == b) by (nonlinear_arith)
            requires
                c == 1,
        ;
    } else {
        let q = p / c;
        let r = p % c;
        lemma_fundamental_div_mod(p, c);
        assert(p % c != 0);
        lemma_mod_pos_bound(p, c);
        let k = (c * b) / p;
        lemma_fundamental_div_mod(c * b, p);
        assert(r * b == (b - q * k) * p) by (nonlinear_arith)
            requires
                p == c * q + r,
                c * b == p * k,
        ;
        lemma_mod_multiples_basic(b - q * k, p);
        lemma_small_factor(p, r, b);
    }
}

/// Euclid's lemma: a prime that divides a product divides one of its
/// factors.
pub proof fn lemma_prime_divides_product(p: int, a: int, b: int)
    requires
        is_prime_spec(p),
        (a * b) % p == 0,
    ensures
        a % p == 0 || b % p == 0,
{
    let c = a % p;
    if c != 0 {
        lemma_mul_mod_noop_left(a, b, p);
        lemma_mod_bound(a, p);
        lemma_small_factor(p, c, b);
    }
}

/// Cancellation modulo a prime: a factor that the prime does not divide
/// can be cancelled from a congruence.
pub proof fn lemma_prime_cancel(p: int, a: int, x: int, y: int)
    requires
        is_prime_spec(p),
        a % p != 0,
        (a * x) % p == (a * y) % p,
    ensures
        x % p == y % p,
{
    lemma_mod_equivalence(a * x, a * y, p);
    assert(a * x - a * y == a * (x - y)) by (nonlinear_arith);
    lemma_prime_divides_product(p, a, x - y);
    lemma_mod_equivalence(x, y, p);
}

/// 1 · 2 · … · n.
pub open spec fn factorial(n: nat) -> int
    decreases n,
{
    if n == 0 {
        1
    } else {
        n * factorial((n - 1) as nat)
    }
}

/// A prime divides no factorial below it.
proof fn lemma_factorial_coprime(p: int, n: nat)
    requires
        is_prime_spec(p),
        n < p,
    ensures
        factorial(n) % p != 0,
    decreases n,
{
    if n == 0 {
        lemma_small_mod(1, p as nat);
    } else {
        lemma_factorial_coprime(p, (n - 1) as nat);
        if factorial(n) % p == 0 {
            lemma_prime_divides_product(p, n as int, factorial((n - 1) as nat));
            lemma_small_mod(n, p as nat);
        }
    }
}

/// The product of the entries of a sequence.
pub open spec fn product(s: Seq<int>) -> int
    decreases s.len(),
{
    if s.len() == 0 {
        1
    } else {
        product(s.drop_last()) * s.last()
    }
}

/// Taking one entry out of a sequence divides its product by that entry.
proof fn lemma_product_remove(s: Seq<int>, j: int)
    requires
        0 <= j < s.len(),
    ensures
        product(s) == product(s.remove(j)) * s[j],
    decreases s.len(),
{
    if j == s.len() - 1 {
        assert(s.remove(j) =~= s.drop_last());
    } else {
        let front = s.drop_last();
        lemma_product_remove(front, j);
        assert(s.remove(j).drop_last() =~= front.remove(j));
        assert(s.remove(j).last() == s.last());
        let rest = product(front.remove(j));
        assert((rest * s[j]) * s.last() == (rest * s.last()) * s[j]) by (nonlinear_arith);
    }
}

/// The entries of `s` are pairwise different and lie between 1 and `k`.
pub open spec fn distinct_in_range(s: Seq<int>, k: int) -> bool {
    &&& forall|i: int| 0 <= i < s.len() ==> 1 <= #[trigger] s[i] <= k
    &&& forall|i: int, j: int| 0 <= i < j < s.len() ==> s[i] != s[j]
}

/// Removing an entry keeps the others distinct; if the entry was the
/// largest value allowed, the range shrinks by one.
proof fn lemma_remove_largest(s: Seq<int>, k: int, j: int)
    requires
        distinct_in_range(s, k),
        0 <= j < s.len(),
        s[j] == k,
    ensures
        distinct_in_range(s.remove(j), k - 1),
{
    let t = s.remove(j);
    assert forall|i: int| 0 <= i < t.len() implies 1 <= #[trigger] t[i] <= k - 1 by {
        if i < j {
            assert(t[i] == s[i]);
        } else {
            assert(t[i] == s[i + 1]);
        }
    }
    assert forall|i1: int, i2: int| 0 <= i1 < i2 < t.len() implies t[i1] != t[i2] by {
        let m1 = if i1 < j {
            i1
        } else {
            i1 + 1
        };
        let m2 = if i2 < j {
            i2
        } else {
            i2 + 1
        };
        assert(t[i1] == s[m1] && t[i2] == s[m2]);
    }
}

/// Pigeonhole: pairwise different values between 1 and `k` are at most `k`
/// many.
pub proof fn lemma_pigeonhole(s: Seq<int>, k: int)
    requires
        k >= 0,
        distinct_in_range(s, k),
    ensures
        s.len() <= k,
    decreases k,
{
    if k == 0 {
        if s.len() > 0 {
            assert(1 <= s[0] <= 0);
        }
    } else if exists|j: int| 0 <= j < s.len() && s[j] == k {
        let j = choose|j: int| 0 <= j < s.len() && s[j] == k;
        lemma_remove_largest(s, k, j);
        lemma_pigeonhole(s.remove(j), k - 1);
    } else {
        assert(distinct_in_range(s, k - 1));
        lemma_pigeonhole(s, k - 1);
    }
}

/// Pairwise different values between 1 and `n`, `n` of them, take every
/// value between 1 and `n`.
pub proof fn lemma_arrangement_is_onto(s: Seq<int>, n: int, v: int)
    requires
        s.len() == n,
        distinct_in_range(s, n),
        1 <= v <= n,
    ensures
        exists|j: int| 0 <= j < n && s[j] == v,
{
    if !(exists|j: int| 0 <= j < n && s[j] == v) {
        let t = Seq::new(
            n as nat,
            |i: int|
                if s[i] > v {
                    s[i] - 1
                } else {
                    s[i]
                },
        );
        assert forall|i: int| 0 <= i < t.len() implies 1 <= #[trigger] t[i] <= n - 1 by {
            assert(s[i] != v);
        }
        assert forall|i: int, j: int| 0 <= i < j < t.len() implies t[i] != t[j] by {
            assert(s[i] != v && s[j] != v);
        }
        lemma_pigeonhole(t, n - 1);
    }
}

/// A sequence that lists each of 1, …, n once, in any order, has the
/// product n!.
proof fn lemma_product_of_arrangement(s: Seq<int>, n: nat)
    requires
        s.len() == n,
        distinct_in_range(s, n as int),
    ensures
        product(s) == factorial(n),
    decreases n,
{
    if n > 0 {
        if !(exists|j: int| 0 <= j < s.len() && s[j] == n) {
            assert(distinct_in_range(s, n - 1));
            lemma_pigeonhole(s, n - 1);
        }
        let j = choose|j: int| 0 <= j < s.len() && s[j] == n;
        lemma_remove_largest(s, n as int, j);
        lemma_product_of_arrangement(s.remove(j), (n - 1) as nat);
        lemma_product_remove(s, j);
        assert(factorial((n - 1) as nat) * n == n * factorial((n - 1) as nat))
            by (nonlinear_arith);
    }
}

/// The residues of a, 2a, …, na modulo p.
pub open spec fn multiples(a: int, p: int, n: nat) -> Seq<int> {
    Seq::new(n, |i: int| (a * (i + 1)) % p)
}

/// Modulo p, the product of the first n multiples of a is aⁿ · n!.
proof fn lemma_product_of_multiples(a: int, p: int, n: nat)
    requires
        p > 0,
    ensures
        product(multiples(a, p, n)) % p == (pow(a, n) * factorial(n)) % p,
    decreases n,
{
    reveal(pow);
    if n == 0 {
        lemma_pow0(a);
    } else {
        let m = (n - 1) as nat;
        let s = multiples(a, p, n);
        assert(s.drop_last() =~= multiples(a, p, m));
        lemma_product_of_multiples(a, p, m);
        let front = product(multiples(a, p, m));
        let f = pow(a, m) * factorial(m);
        assert(product(s) == front * ((a * n) % p));
        lemma_mul_mod_noop_general(front, a * n, p);
        lemma_mul_mod_noop_general(f, a * n, p);
        assert((front * ((a * n) % p)) % p == (f * (a * n)) % p);
        assert(f * (a * n) == pow(a, n) * factorial(n)) by (nonlinear_arith)
            requires
                f == pow(a, m) * factorial(m),
                pow(a, n) == a * pow(a, m),
                factorial(n) == n * factorial(m),
        ;
    }
}

/// For a prime p that does not divide a, the residues of a, 2a, …, (p−1)a
/// are pairwise different and none is 0.
proof fn lemma_multiples_distinct(a: int, p: int)
    requires
        is_prime_spec(p),
        a % p != 0,
    ensures
        distinct_in_range(multiples(a, p, (p - 1) as nat), p - 1),
{
    let s = multiples(a, p, (p - 1) as nat);
    assert forall|i: int| 0 <= i < s.len() implies 1 <= #[trigger] s[i] <= p - 1 by {
        lemma_mod_bound(a * (i + 1), p);
        if s[i] == 0 {
            lemma_prime_divides_product(p, a, i + 1);
            lemma_small_mod((i + 1) as nat, p as nat);
        }
    }
    assert forall|i: int, j: int| 0 <= i < j < s.len() implies s[i] != s[j] by {
        if s[i] == s[j] {
            lemma_prime_cancel(p, a, i + 1, j + 1);
            lemma_small_mod((i + 1) as nat, p as nat);
            lemma_small_mod((j + 1) as nat, p as nat);
        }
    }
}

/// Fermat's little theorem: for a prime p that does not divide a,
/// a^(p−1) ≡ 1 (mod p).
pub proof fn lemma_fermat_little(a: int, p: int)
    requires
        is_prime_spec(p),
        a % p != 0,
    ensures
        pow(a, (p - 1) as nat) % p == 1,
{
    let n = (p - 1) as nat;
    let s = multiples(a, p, n);
    lemma_multiples_distinct(a, p);
    lemma_product_of_arrangement(s, n);
    lemma_product_of_multiples(a, p, n);
    lemma_factorial_coprime(p, n);
    assert(factorial(n) * 1 == factorial(n));
    assert(factorial(n) * pow(a, n) == pow(a, n) * factorial(n)) by (nonlinear_arith);
    lemma_prime_cancel(p, factorial(n), 1, pow(a, n));
    lemma_small_mod(1, p as nat);
}

} // verus!
