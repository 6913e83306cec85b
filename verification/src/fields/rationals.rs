//! Equality of fractions over the integers, computed for all of them.
use crate::fields::fraction_field::{same_fraction, FractionField};
use crate::primitives::Integer;
use crate::rings::Factorability;
use vstd::prelude::*;
use vstd::std_specs::cmp::PartialEqSpecImpl;

verus! {

/// The product of two machine integers fits in twice the width.
proof fn lemma_wide_product(a: int, b: int)
    by (nonlinear_arith)
    requires
        -0x8000_0000_0000_0000 <= a <= 0x7fff_ffff_ffff_ffff,
        -0x8000_0000_0000_0000 <= b <= 0x7fff_ffff_ffff_ffff,
    ensures
        -0x4000_0000_0000_0000_0000_0000_0000_0000 <= a * b
            <= 0x4000_0000_0000_0000_0000_0000_0000_0000,
{
}

impl<F: Factorability> PartialEq for FractionField<Integer, F> {
    /// Equality of fractions by cross-multiplication, in twice the width,
    /// so that it is computed for all fractions.
    fn eq(&self, other: &Self) -> (r: bool) {
        let p = self.numerator().value() as i128;
        let q = self.denominator().value() as i128;
        let t = other.numerator().value() as i128;
        let u = other.denominator().value() as i128;
        proof {
            lemma_wide_product(p as int, u as int);
            lemma_wide_product(q as int, t as int);
        }
        p * u == q * t
    }
}

impl<F: Factorability> PartialEqSpecImpl for FractionField<Integer, F> {
    open spec fn obeys_eq_spec() -> bool {
        true
    }

    open spec fn eq_spec(&self, other: &Self) -> bool {
        same_fraction::<Integer, F>(self@, other@)
    }
}

} // verus!
