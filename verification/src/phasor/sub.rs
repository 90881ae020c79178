//! Subtraction: addition of the negated right-hand side.

use vstd::prelude::*;

use crate::arith::div_bits;
use crate::bits::{is_inf_b, is_zero_b, lemma_neg, neg_bits, ONE_BITS};
use crate::phasor::add::add_spec;
use crate::phasor::Phasor;

verus! {

impl Phasor {
    /// The difference `self + (-rhs)`: the result is exactly `add_spec`
    /// of `self` and the negated right-hand side, so the whole of
    /// addition's contract transfers. In particular NaN propagates; a
    /// finite value minus itself cancels to a zero magnitude on the
    /// perpendicular direction `-1/tan`, while an infinite value minus
    /// itself is NaN; subtracting a real zero leaves a nonzero real value
    /// exactly; and subtracting a real infinity from a finite value gives
    /// the negated infinity exactly.
    pub fn sub(&self, rhs: &Phasor) -> (r: Phasor)
        ensures
            r == add_spec(*self, rhs.spec_neg()),
            self.is_nan() || rhs.is_nan() ==> r.is_nan(),
            self.spec_is_infinite() && *rhs == *self ==> r.is_nan(),
            self.spec_is_finite() && *rhs == *self ==> r.mag == 0 && r.tan == neg_bits(
                div_bits(ONE_BITS, self.tan),
            ),
            self.spec_is_finite() && rhs.spec_is_infinite() ==> r.spec_is_infinite(),
            self.spec_is_infinite() && rhs.spec_is_finite() ==> r.spec_is_infinite(),
            is_zero_b(rhs.mag) && is_zero_b(rhs.tan) && self.spec_is_real() && !self.spec_is_zero()
                && !self.is_nan() ==> r.mag == self.mag && r.spec_is_real(),
            self.spec_is_finite() && rhs.spec_is_infinite() && is_zero_b(rhs.tan) ==> r.mag
                == neg_bits(rhs.mag) && is_zero_b(r.tan),
            self.spec_is_finite() && rhs.spec_is_infinite() && is_inf_b(rhs.tan) ==> is_inf_b(
                r.tan,
            ),
    {
        proof {
            lemma_neg(rhs.mag);
        }
        let n: Phasor = rhs.neg();
        self.add(&n)
    }
}

} // verus!
