//! The hyperbolic sine.
//!
//! `sinh(x + iy) = sinh(x) cos(y) + i cosh(x) sin(y)`, re-expressed in
//! magnitude/tangent form: the magnitude is `hypot(sinh(x), sin(y))`
//! signed by `cos(y)` and by `x`'s own sign, the tangent is
//! `tan(y) / tanh(x)`. A purely imaginary input collapses to the scalar
//! sine of the imaginary part, and a zero input is returned unchanged
//! (hyperbolic sine is odd and fixes zero). The five scalar factors are
//! transcendental, so the caller supplies them; the classification
//! branching is verified here.

use vstd::prelude::*;

use crate::arith::{div_bits, fdiv, hypot_b, hypot_spec, mul_bits};
use crate::bits::{copysign_bits, fcopysign, is_zero_b, INF_BITS, ONE_BITS};
use crate::phasor::imag::imag_spec;
use crate::phasor::real_part::real_spec;
use crate::phasor::Phasor;

verus! {

/// The hyperbolic sine as a value, over the supplied scalar factors:
/// for a value off the imaginary axis,
/// `hypot(sinh(re), sin(im)).copysign(cos(im)) * 1.copysign(re)` over
/// `tan(im) / tanh(re)`; on the imaginary axis (but off zero) the scalar
/// `sin(im)` rotated by a quarter turn; at zero the value itself.
pub open spec fn sinh_spec(
    p: Phasor,
    sinh_of_re: u64,
    sin_of_im: u64,
    cos_of_im: u64,
    tan_of_im: u64,
    tanh_of_re: u64,
) -> Phasor {
    if !is_zero_b(real_spec(p)) {
        Phasor {
            mag: mul_bits(
                copysign_bits(hypot_spec(sinh_of_re, sin_of_im), cos_of_im),
                copysign_bits(ONE_BITS, real_spec(p)),
            ),
            tan: div_bits(tan_of_im, tanh_of_re),
        }
    } else if !is_zero_b(imag_spec(p)) {
        Phasor { mag: sin_of_im, tan: INF_BITS }
    } else {
        p
    }
}

impl Phasor {
    /// The hyperbolic sine, given `sinh(re)`, `sin(im)`, `cos(im)`,
    /// `tan(im)` and `tanh(re)` for `re = self.real_part()` and
    /// `im = self.imag()`.
    pub fn sinh(
        &self,
        sinh_of_re: u64,
        sin_of_im: u64,
        cos_of_im: u64,
        tan_of_im: u64,
        tanh_of_re: u64,
    ) -> (r: Phasor)
        ensures
            r == sinh_spec(*self, sinh_of_re, sin_of_im, cos_of_im, tan_of_im, tanh_of_re),
    {
        proof {
            crate::bits::lemma_constants();
            crate::bits::lemma_copysign(ONE_BITS, real_spec(*self));
        }
        let re: u64 = self.real_part();
        let im: u64 = self.imag();
        if crate::bits::fabs(re) != 0 {
            let h: u64 = hypot_b(sinh_of_re, sin_of_im);
            let m1: u64 = fcopysign(h, cos_of_im);
            let sgn: u64 = fcopysign(ONE_BITS, re);
            Phasor {
                mag: crate::arith::fmul(m1, sgn),
                tan: fdiv(tan_of_im, tanh_of_re),
            }
        } else if crate::bits::fabs(im) != 0 {
            Phasor { mag: sin_of_im, tan: INF_BITS }
        } else {
            *self
        }
    }
}

} // verus!
