//! The imaginary (Cartesian) part of the value.

use vstd::prelude::*;

use crate::arith::{fmul, mul_bits};
use crate::bits::{
    abs_b, copysign_bits, fgt_abs, fsignum, is_nan_b, is_zero_b, lemma_constants, lemma_copysign,
    neg_bits, sign_b, signum_bits, NEG_ONE_BITS, ONE_BITS,
};
use crate::phasor::Phasor;
use crate::trig::{cosatan2_spec, sinatan};

verus! {

/// `mag * sinatan(tan)`, except that when the sine factor is zero (or
/// NaN) the magnitude's signum is used instead of the magnitude, so the
/// sign of the resulting signed zero is still the composition of both
/// signs rather than being lost to `0 * inf` or to rounding.
pub open spec fn imag_spec(p: Phasor) -> u64 {
    let s = copysign_bits(cosatan2_spec(ONE_BITS, p.tan), p.tan);
    if !is_nan_b(s) && abs_b(s) > 0 {
        mul_bits(s, p.mag)
    } else {
        mul_bits(s, signum_bits(p.mag))
    }
}

impl Phasor {
    /// The imaginary part. NaN exactly when the value is NaN; a real
    /// value yields a signed zero whose sign composes the two fields'
    /// signs; an imaginary value yields the magnitude exactly, negated
    /// when the tangent is negative infinity.
    pub fn imag(&self) -> (r: u64)
        ensures
            r == imag_spec(*self),
            is_nan_b(r) <==> self.is_nan(),
            !self.is_nan() ==> sign_b(r) == (sign_b(self.tan) != sign_b(self.mag)),
            self.spec_is_real() ==> is_zero_b(r),
            self.spec_is_imaginary() && !sign_b(self.tan) ==> r == self.mag,
            self.spec_is_imaginary() && sign_b(self.tan) ==> r == neg_bits(self.mag),
    {
        proof {
            lemma_constants();
            lemma_copysign(ONE_BITS, self.tan);
            lemma_copysign(ONE_BITS, self.mag);
            crate::bits::lemma_recompose(copysign_bits(ONE_BITS, self.tan), ONE_BITS);
            crate::bits::lemma_recompose(copysign_bits(ONE_BITS, self.tan), NEG_ONE_BITS);
        }
        let s: u64 = sinatan(self.tan);
        if fgt_abs(s, 0) {
            fmul(s, self.mag)
        } else {
            fmul(s, fsignum(self.mag))
        }
    }
}

} // verus!
