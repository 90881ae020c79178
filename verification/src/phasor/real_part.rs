//! The real (Cartesian) part of the value.

use vstd::prelude::*;

use crate::arith::{fmul, mul_bits};
use crate::bits::{
    abs_b, fgt_abs, fsignum, is_nan_b, is_zero_b, lemma_constants, lemma_copysign, sign_b,
    signum_bits, ONE_BITS,
};
use crate::phasor::Phasor;
use crate::trig::{cosatan, cosatan2_spec};

verus! {

/// `mag * cosatan(tan)`, except that when the cosine factor is zero (or
/// NaN) the magnitude's signum is used instead of the magnitude, so the
/// sign of the resulting signed zero is still the composition of both
/// signs rather than being lost to `0 * inf` or to rounding.
pub open spec fn real_spec(p: Phasor) -> u64 {
    let c = cosatan2_spec(p.tan, ONE_BITS);
    if !is_nan_b(c) && abs_b(c) > 0 {
        mul_bits(c, p.mag)
    } else {
        mul_bits(c, signum_bits(p.mag))
    }
}

impl Phasor {
    /// The real part. NaN exactly when the value is NaN; a real value
    /// yields its magnitude exactly; an imaginary one a signed zero whose
    /// sign is the magnitude's; and the sign of the magnitude is never
    /// lost even when the cosine factor underflows.
    pub fn real_part(&self) -> (r: u64)
        ensures
            r == real_spec(*self),
            is_nan_b(r) <==> self.is_nan(),
            !self.is_nan() ==> sign_b(r) == sign_b(self.mag),
            self.spec_is_real() ==> r == self.mag,
            self.spec_is_imaginary() ==> is_zero_b(r),
    {
        proof {
            lemma_constants();
            lemma_copysign(ONE_BITS, self.mag);
        }
        let c: u64 = cosatan(self.tan);
        if fgt_abs(c, 0) {
            fmul(c, self.mag)
        } else {
            fmul(c, fsignum(self.mag))
        }
    }
}

} // verus!
