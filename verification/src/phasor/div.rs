//! Division: angles subtract through the tangent-difference identity,
//! the magnitudes divide, and a branch crossing flips the sign.

use vstd::prelude::*;

use crate::arith::{div_bits, fdiv};
use crate::bits::{
    abs_b, copysign_bits, fsignum, is_finite_b, is_inf_b, is_nan_b, is_zero_b, le_abs,
    lemma_constants,
    lemma_copysign, lemma_neg, lemma_recompose, signum_bits, NEG_ONE_BITS, ONE_BITS,
};
use crate::phasor::Phasor;
use crate::trig::{tansub_cos, tansub_sin, tansubatan};

verus! {

impl Phasor {
    /// The quotient. The tangent is the sine-like over the cosine-like
    /// component of the angle difference; the magnitude is the quotient
    /// of the magnitudes, with its sign flipped by the cosine component's
    /// signum exactly when the tangent subtraction wraps past a branch
    /// boundary.
    ///
    /// NaN in either operand propagates, and zero over zero as well as
    /// infinite over infinite is NaN. The norm of the quotient is exactly
    /// the (rounded) quotient of the norms. Dividing by the positive real
    /// unit keeps the magnitude bits exactly, and keeps the tangent bits
    /// whenever the tangent is infinite or of magnitude at most one.
    pub fn div(&self, rhs: &Phasor) -> (r: Phasor)
        ensures
            r.tan == div_bits(
                tansub_sin(self.tan, rhs.tan),
                tansub_cos(self.tan, rhs.tan),
            ),
            r.mag == div_bits(
                div_bits(self.mag, rhs.mag),
                signum_bits(tansub_cos(self.tan, rhs.tan)),
            ),
            self.is_nan() || rhs.is_nan() ==> r.is_nan(),
            (self.spec_is_zero() && rhs.spec_is_zero()) || (self.spec_is_infinite()
                && rhs.spec_is_infinite()) ==> is_nan_b(r.mag),
            !self.is_nan() && !rhs.is_nan() ==> abs_b(r.mag) == div_bits(
                abs_b(self.mag),
                abs_b(rhs.mag),
            ),
            !self.is_nan() && rhs.mag == ONE_BITS && is_zero_b(rhs.tan) ==> r.mag == self.mag,
            !self.is_nan() && rhs.mag == ONE_BITS && is_zero_b(rhs.tan) && is_zero_b(self.tan)
                ==> is_zero_b(r.tan),
            !self.is_nan() && rhs.mag == ONE_BITS && is_zero_b(rhs.tan) && !is_zero_b(self.tan)
                && le_abs(self.tan, ONE_BITS) ==> r.tan == self.tan,
            !self.is_nan() && rhs.mag == ONE_BITS && is_zero_b(rhs.tan) && is_inf_b(self.tan)
                ==> r.tan == self.tan,
            !self.is_nan() && !rhs.is_nan() ==> (is_nan_b(r.mag) <==> ((is_zero_b(self.mag)
                && is_zero_b(rhs.mag)) || (is_inf_b(self.mag) && is_inf_b(rhs.mag)))),
            !self.is_nan() && !rhs.is_nan() && is_finite_b(self.mag) && is_inf_b(rhs.mag)
                ==> is_zero_b(r.mag),
            !self.is_nan() && !rhs.is_nan() && !is_zero_b(self.mag) && is_zero_b(rhs.mag)
                ==> is_inf_b(r.mag),
            !self.is_nan() && !rhs.is_nan() && is_zero_b(rhs.tan) ==> !is_nan_b(r.tan),
    {
        proof {
            lemma_constants();
            lemma_recompose(self.tan, rhs.tan);
        }
        let sc: (u64, u64) = tansubatan(self.tan, rhs.tan);
        let s: u64 = sc.0;
        let c: u64 = sc.1;
        let m1: u64 = fdiv(self.mag, rhs.mag);
        let sg: u64 = fsignum(c);
        let mag: u64 = fdiv(m1, sg);
        let t: u64 = fdiv(s, c);
        proof {
            lemma_copysign(ONE_BITS, c);
            lemma_copysign(ONE_BITS, self.tan);
            lemma_recompose(copysign_bits(ONE_BITS, c), ONE_BITS);
            lemma_recompose(copysign_bits(ONE_BITS, c), NEG_ONE_BITS);
            lemma_neg(m1);
            lemma_recompose(t, self.tan);
            lemma_recompose(s, self.tan);
        }
        Phasor { mag, tan: t }
    }
}

} // verus!
