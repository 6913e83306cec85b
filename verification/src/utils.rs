//! Primality.
use vstd::arithmetic::div_mod::{
    lemma_div_is_ordered_by_denominator, lemma_fundamental_div_mod, lemma_mod_multiples_basic,
};
use vstd::prelude::*;

verus! {

/// `n` is a prime number: at least 2, and no number strictly between 1 and
/// `n` divides it.
pub open spec fn is_prime_spec(n: int) -> bool {
    &&& n >= 2
    &&& forall|d: int| 2 <= d < n ==> #[trigger] (n % d) != 0
}

/// A divisor of `n` at or above `bound` has a cofactor below `bound`, where
/// `bound` squared exceeds `n`; the cofactor divides `n` too.
proof fn lemma_cofactor_is_small(n: int, d: int, bound: int)
    requires
        2 <= bound <= d < n,
        n / bound < bound,
        n % d == 0,
    ensures
        2 <= n / d < bound,
        n % (n / d) == 0,
{
    let q = n / d;
    lemma_fundamental_div_mod(n, d);
    assert(n == d * q);
    lemma_div_is_ordered_by_denominator(n, bound, d);
    assert(q >= 2) by (nonlinear_arith)
        requires
            n == d * q,
            2 <= d < n,
    ;
    lemma_mod_multiples_basic(d, q);
}

/// Decides primality by trial division up to the square root of `n`.
pub fn is_prime(n: usize) -> (r: bool)
    ensures
        r == is_prime_spec(n as int),
{
    if n < 2 {
        return false;
    }
    let mut i: usize = 2;
    while i <= n / i
        invariant
            2 <= i <= n,
            forall|d: int| 2 <= d < i ==> #[trigger] ((n as int) % d) != 0,
        decreases n - i,
    {
        proof {
            lemma_div_is_ordered_by_denominator(n as int, 2, i as int);
        }
        if n % i == 0 {
            return false;
        }
        i = i + 1;
    }
    assert forall|d: int| 2 <= d < n implies #[trigger] ((n as int) % d) != 0 by {
        if d >= i && (n as int) % d == 0 {
            lemma_cofactor_is_small(n as int, d, i as int);
            assert((n as int) % ((n as int) / d) != 0);
        }
    }
    true
}

} // verus!
