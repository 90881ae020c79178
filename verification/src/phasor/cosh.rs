//! The hyperbolic cosine.
//!
//! `cosh(x + iy) = cosh(x) cos(y) + i sinh(x) sin(y)`, re-expressed in
//! magnitude/tangent form: the magnitude is `hypot(sinh(x), cos(y))`
//! signed by `cos(y)`, the tangent is `tan(y) * tanh(x)`. The four
//! scalar factors are transcendental, so the caller supplies them; the
//! assembly is verified here.

use vstd::prelude::*;

use crate::arith::{fmul, hypot_b, hypot_spec, mul_bits};
use crate::bits::{copysign_bits, fcopysign, is_nan_b, lemma_copysign, sign_b};
use crate::phasor::Phasor;

verus! {

impl Phasor {
    /// The hyperbolic cosine, given `sinh(re)`, `cos(im)`, `tan(im)` and
    /// `tanh(re)` for `re = self.real_part()` and `im = self.imag()`.
    pub fn cosh(&self, sinh_of_re: u64, cos_of_im: u64, tan_of_im: u64, tanh_of_re: u64) -> (r:
        Phasor)
        ensures
            r.mag == copysign_bits(hypot_spec(sinh_of_re, cos_of_im), cos_of_im),
            r.tan == mul_bits(tan_of_im, tanh_of_re),
            !is_nan_b(r.mag) ==> sign_b(r.mag) == sign_b(cos_of_im),
            is_nan_b(tan_of_im) || is_nan_b(tanh_of_re) ==> r.is_nan(),
    {
        proof {
            lemma_copysign(hypot_spec(sinh_of_re, cos_of_im), cos_of_im);
        }
        let h: u64 = hypot_b(sinh_of_re, cos_of_im);
        Phasor { mag: fcopysign(h, cos_of_im), tan: fmul(tan_of_im, tanh_of_re) }
    }
}

} // verus!
