//! Multiplication: angles add through the tangent-sum identity, the
//! magnitudes multiply, and a branch crossing flips the magnitude's sign.

use vstd::prelude::*;

use crate::arith::{div_bits, fdiv, fmul, mul_bits};
use crate::bits::{
    abs_b, copysign_bits, fsignum, is_inf_b, is_nan_b, is_zero_b, le_abs, lemma_constants,
    lemma_copysign, lemma_neg, lemma_recompose, neg_bits, sign_b, signum_bits,
    NEG_ONE_BITS, ONE_BITS,
};
use crate::phasor::Phasor;
use crate::trig::{tanaddatan, tansub_cos, tansub_sin};

verus! {

impl Phasor {
    /// The product. The tangent is the sine-like over the cosine-like
    /// component of the angle sum; the magnitude is the product of the
    /// magnitudes, with its sign flipped by the cosine component's signum
    /// exactly when the tangent addition wraps past a branch boundary.
    ///
    /// NaN in either operand propagates, and a zero times an infinite
    /// phasor is NaN. The norm of the product is exactly the (rounded)
    /// product of the norms. Multiplying by the positive real unit keeps
    /// the magnitude bits exactly, and keeps the tangent bits whenever
    /// the tangent is infinite or of magnitude at most one.
    pub fn mul(&self, rhs: &Phasor) -> (r: Phasor)
        ensures
            r.tan == div_bits(
                tansub_sin(self.tan, neg_bits(rhs.tan)),
                tansub_cos(self.tan, neg_bits(rhs.tan)),
            ),
            r.mag == mul_bits(
                mul_bits(self.mag, rhs.mag),
                signum_bits(tansub_cos(self.tan, neg_bits(rhs.tan))),
            ),
            self.is_nan() || rhs.is_nan() ==> r.is_nan(),
            (self.spec_is_zero() && rhs.spec_is_infinite()) || (self.spec_is_infinite()
                && rhs.spec_is_zero()) ==> is_nan_b(r.mag),
            !self.is_nan() && !rhs.is_nan() ==> abs_b(r.mag) == mul_bits(
                abs_b(self.mag),
                abs_b(rhs.mag),
            ),
            !self.is_nan() && rhs.mag == ONE_BITS && is_zero_b(rhs.tan) ==> r.mag == self.mag,
            !self.is_nan() && rhs.mag == ONE_BITS && is_zero_b(rhs.tan) && is_zero_b(self.tan)
                ==> is_zero_b(r.tan),
            !self.is_nan() && rhs.mag == ONE_BITS && is_zero_b(rhs.tan) && !is_zero_b(self.tan)
                && le_abs(self.tan, ONE_BITS) ==> r.tan == self.tan,
            !self.is_nan() && rhs.mag == ONE_BITS && is_zero_b(rhs.tan) && is_inf_b(self.tan)
                ==> r.tan == self.tan,
            *rhs == self.spec_conj() && !self.is_nan() ==> r.spec_is_real() && is_zero_b(r.tan)
                && r.mag == mul_bits(self.mag, self.mag) && !sign_b(r.mag),
            !self.is_nan() && !rhs.is_nan() && is_zero_b(rhs.tan) ==> !is_nan_b(r.tan),
    {
        proof {
            lemma_constants();
            lemma_neg(rhs.tan);
            lemma_recompose(self.tan, rhs.tan);
        }
        let sc: (u64, u64) = tanaddatan(self.tan, rhs.tan);
        let s: u64 = sc.0;
        let c: u64 = sc.1;
        let m1: u64 = fmul(self.mag, rhs.mag);
        let sg: u64 = fsignum(c);
        let mag: u64 = fmul(m1, sg);
        let t: u64 = fdiv(s, c);
        proof {
            lemma_copysign(ONE_BITS, c);
            lemma_copysign(ONE_BITS, self.tan);
            lemma_recompose(copysign_bits(ONE_BITS, c), ONE_BITS);
            lemma_recompose(copysign_bits(ONE_BITS, c), NEG_ONE_BITS);
            lemma_neg(m1);
            lemma_recompose(t, self.tan);
            lemma_recompose(s, self.tan);
        }
        Phasor { mag, tan: t }
    }
}

} // verus!
