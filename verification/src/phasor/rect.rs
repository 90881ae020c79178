//! Construction from rectangular (Cartesian) coordinates.

use vstd::prelude::*;

use crate::arith::{div_bits, fdiv, hypot_b, hypot_spec};
use crate::bits::{
    abs_b, copysign_bits, fabs, fcopysign, fsignum, is_inf_b, is_nan_b, is_zero_b,
    lemma_constants, lemma_copysign, lemma_recompose, sign_b, signum_bits, ONE_BITS, QNAN_BITS,
};
use crate::phasor::Phasor;

verus! {

/// The phasor whose rectangular coordinates are `re + i*im`, as a value:
/// the Euclidean norm carrying `re`'s sign, over the tangent `im / re`
/// (with a zero `im` divided by `re`'s signum so it stays a signed zero).
/// Two infinite coordinates have no single well-defined phasor: the
/// magnitude is NaN by policy while the tangent keeps the quadrant as
/// `sign(im) / sign(re)`.
pub open spec fn rect_spec(re: u64, im: u64) -> Phasor {
    if is_inf_b(re) && is_inf_b(im) {
        Phasor { mag: QNAN_BITS, tan: div_bits(signum_bits(im), signum_bits(re)) }
    } else {
        Phasor {
            mag: copysign_bits(hypot_spec(re, im), re),
            tan: if is_zero_b(im) {
                div_bits(im, signum_bits(re))
            } else {
                div_bits(im, re)
            },
        }
    }
}

impl Phasor {
    /// The phasor whose rectangular coordinates are `re + i*im`.
    ///
    /// The magnitude is the Euclidean norm carrying `re`'s sign; the
    /// tangent is `im / re`, except that an exactly zero `im` is divided
    /// by `re`'s signum instead, so that the tangent stays a signed zero
    /// (the sign of `mag` alone then encodes an angle of zero or pi). Two
    /// infinite coordinates have no well-defined direction: the magnitude
    /// is NaN while the tangent records the quadrant as the signed unit
    /// `sign(im) / sign(re)`. The result is NaN exactly when an input is
    /// NaN or both inputs are infinite.
    pub fn rect(re: u64, im: u64) -> (r: Phasor)
        ensures
            r == rect_spec(re, im),
            r.is_nan() <==> (is_nan_b(re) || is_nan_b(im) || (is_inf_b(re) && is_inf_b(im))),
            !(is_inf_b(re) && is_inf_b(im)) ==> r.mag == copysign_bits(hypot_spec(re, im), re)
                && abs_b(r.mag) == abs_b(hypot_spec(re, im)),
            !(is_inf_b(re) && is_inf_b(im)) && !is_nan_b(re) ==> sign_b(r.mag) == sign_b(re),
            is_inf_b(re) && is_inf_b(im) ==> is_nan_b(r.mag) && abs_b(r.tan) == ONE_BITS && (
            sign_b(r.tan) == (sign_b(im) != sign_b(re))),
            is_zero_b(im) && !is_nan_b(re) ==> r.mag == re && is_zero_b(r.tan) && (sign_b(r.tan)
                == (sign_b(im) != sign_b(re))),
            is_zero_b(im) && !is_nan_b(re) ==> r.spec_is_real(),
    {
        proof {
            lemma_constants();
            lemma_recompose(re, im);
            lemma_recompose(im, re);
            lemma_copysign(ONE_BITS, re);
            lemma_copysign(ONE_BITS, im);
            lemma_recompose(copysign_bits(ONE_BITS, re), ONE_BITS);
            lemma_recompose(copysign_bits(ONE_BITS, re), crate::bits::NEG_ONE_BITS);
            crate::bits::lemma_neg(copysign_bits(ONE_BITS, im));
        }
        if fabs(re) == crate::bits::INF_BITS && fabs(im) == crate::bits::INF_BITS {
            return Phasor { mag: QNAN_BITS, tan: fdiv(fsignum(im), fsignum(re)) };
        }
        let h: u64 = hypot_b(re, im);
        let mag: u64 = fcopysign(h, re);
        proof {
            lemma_copysign(h, re);
            lemma_recompose(mag, re);
        }
        let t: u64 = if fabs(im) == 0 {
            fdiv(im, fsignum(re))
        } else {
            fdiv(im, re)
        };
        Phasor { mag, tan: t }
    }
}

} // verus!
