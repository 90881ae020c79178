//! Addition, derived from the half-angle identity for summing two unit
//! vectors scaled by their own magnitudes.

use vstd::prelude::*;

use crate::arith::{add_bits, div_bits, fadd, fdiv, fmul, hypot_b, hypot_spec, mul_bits};
use crate::bits::{
    abs_b, copysign_bits, fcopysign, fgt_abs, fneg, fsign, is_inf_b, is_nan_b, is_zero_b,
    lemma_constants, lemma_copysign, lemma_neg, lemma_recompose, neg_bits, sign_b,
    FRAC_1_SQRT_2_BITS, NEG_ONE_BITS, ONE_BITS,
};
use crate::phasor::Phasor;
use crate::trig::{cosatan, cosatan2, cosatan2_spec, cosatan_spec, sinatan, sinatan2, sinatan_spec};

verus! {

/// The sum as a value, spelled out operation by operation. The relative
/// weight of the two magnitudes is itself treated as an angle:
/// `u = sinatan2(p.mag, q.mag)` and `v = cosatan2(p.mag, q.mag)` weight
/// the two unit directions, the four projections are summed into
/// rectangular coordinates, and the result is recovered by dividing out
/// whichever weight is larger (the smaller one would amplify rounding).
/// When both rectangular parts cancel to exactly zero, the tangent is
/// resolved by comparing the projections' signs, falling back to the
/// perpendicular direction when both comparisons are ambiguous.
pub open spec fn add_spec(p: Phasor, q: Phasor) -> Phasor {
    let u = copysign_bits(cosatan2_spec(q.mag, p.mag), p.mag);
    let v = cosatan2_spec(p.mag, q.mag);
    let ure = mul_bits(u, cosatan_spec(p.tan));
    let uim = mul_bits(u, sinatan_spec(p.tan));
    let vre = mul_bits(v, cosatan_spec(q.tan));
    let vim = mul_bits(v, sinatan_spec(q.tan));
    let re = add_bits(ure, vre);
    let im = add_bits(uim, vim);
    Phasor {
        mag: if !is_nan_b(u) && !is_nan_b(v) && abs_b(u) > abs_b(v) {
            mul_bits(hypot_spec(div_bits(re, u), div_bits(im, u)), copysign_bits(p.mag, re))
        } else {
            mul_bits(hypot_spec(div_bits(re, v), div_bits(im, v)), copysign_bits(q.mag, re))
        },
        tan: if !(is_zero_b(im) && is_zero_b(re)) {
            div_bits(im, re)
        } else if sign_b(ure) == sign_b(vre) {
            ure
        } else if sign_b(uim) == sign_b(vim) {
            div_bits(ONE_BITS, uim)
        } else {
            neg_bits(div_bits(ONE_BITS, p.tan))
        },
    }
}

impl Phasor {
    /// The sum; the result is exactly `add_spec` of the two operands.
    ///
    /// NaN in either operand propagates. An infinite operand absorbs a
    /// finite one (exactly, field for field, when its tangent is zero;
    /// keeping the class, and the imaginary axis, otherwise). A zero
    /// magnitude with a zero tangent leaves a nonzero real operand
    /// exactly. Two exactly opposite finite phasors cancel to a zero
    /// magnitude whose tangent is the perpendicular direction
    /// `-1/tan`, and the sum of an infinite phasor and its exact
    /// negation is NaN.
    pub fn add(&self, rhs: &Phasor) -> (r: Phasor)
        ensures
            r == add_spec(*self, *rhs),
            self.is_nan() || rhs.is_nan() ==> r.is_nan(),
            self.spec_is_infinite() && *rhs == self.spec_neg() ==> r.is_nan(),
            self.spec_is_finite() && *rhs == self.spec_neg() ==> r.mag == 0 && r.tan == neg_bits(
                div_bits(ONE_BITS, self.tan),
            ),
            self.spec_is_finite() && rhs.spec_is_infinite() ==> r.spec_is_infinite(),
            self.spec_is_infinite() && rhs.spec_is_finite() ==> r.spec_is_infinite(),
            self.spec_is_finite() && rhs.spec_is_infinite() && is_zero_b(rhs.tan) ==> r.mag
                == rhs.mag && is_zero_b(r.tan),
            self.spec_is_infinite() && is_zero_b(self.tan) && rhs.spec_is_finite() ==> r.mag
                == self.mag && is_zero_b(r.tan),
            self.spec_is_finite() && rhs.spec_is_infinite() && is_inf_b(rhs.tan) ==> is_inf_b(
                r.tan,
            ),
            self.spec_is_infinite() && is_inf_b(self.tan) && rhs.spec_is_finite() ==> is_inf_b(
                r.tan,
            ),
            is_zero_b(rhs.mag) && is_zero_b(rhs.tan) && self.spec_is_real() && !self.spec_is_zero()
                && !self.is_nan() ==> r.mag == self.mag && r.spec_is_real(),
    {
        proof {
            lemma_constants();
            lemma_neg(ONE_BITS);
            lemma_neg(self.mag);
            lemma_recompose(self.mag, rhs.mag);
            lemma_recompose(rhs.mag, self.mag);
            lemma_recompose(self.tan, rhs.tan);
            lemma_recompose(rhs.tan, self.tan);
        }
        let u: u64 = sinatan2(self.mag, rhs.mag);
        let v: u64 = cosatan2(self.mag, rhs.mag);
        let ctp: u64 = cosatan(self.tan);
        let stp: u64 = sinatan(self.tan);
        let ctq: u64 = cosatan(rhs.tan);
        let stq: u64 = sinatan(rhs.tan);
        proof {
            lemma_neg(u);
            lemma_copysign(FRAC_1_SQRT_2_BITS, self.mag);
            lemma_copysign(FRAC_1_SQRT_2_BITS, rhs.mag);
            lemma_copysign(ONE_BITS, self.mag);
            lemma_copysign(ONE_BITS, rhs.mag);
            lemma_recompose(v, neg_bits(u));
            lemma_recompose(u, ONE_BITS);
            lemma_recompose(u, NEG_ONE_BITS);
            lemma_recompose(v, ONE_BITS);
            lemma_recompose(v, NEG_ONE_BITS);
        }
        let ure: u64 = fmul(u, ctp);
        let uim: u64 = fmul(u, stp);
        let vre: u64 = fmul(v, ctq);
        let vim: u64 = fmul(v, stq);
        proof {
            lemma_neg(ure);
            lemma_neg(uim);
            lemma_recompose(vre, neg_bits(ure));
            lemma_recompose(vim, neg_bits(uim));
            lemma_copysign(ONE_BITS, self.tan);
            lemma_copysign(ONE_BITS, rhs.tan);
            lemma_recompose(stp, ONE_BITS);
            lemma_recompose(stp, NEG_ONE_BITS);
            lemma_recompose(stq, ONE_BITS);
            lemma_recompose(stq, NEG_ONE_BITS);
        }
        let re: u64 = fadd(ure, vre);
        let im: u64 = fadd(uim, vim);
        proof {
            lemma_neg(re);
            lemma_neg(im);
        }
        let mag: u64 = if fgt_abs(u, v) {
            let d1: u64 = fdiv(re, u);
            let d2: u64 = fdiv(im, u);
            let m: u64 = hypot_b(d1, d2);
            let cs: u64 = fcopysign(self.mag, re);
            proof {
                lemma_copysign(self.mag, re);
                lemma_recompose(cs, self.mag);
            }
            fmul(m, cs)
        } else {
            let d1: u64 = fdiv(re, v);
            let d2: u64 = fdiv(im, v);
            let m: u64 = hypot_b(d1, d2);
            let cs: u64 = fcopysign(rhs.mag, re);
            proof {
                lemma_copysign(rhs.mag, re);
                lemma_recompose(cs, rhs.mag);
            }
            fmul(m, cs)
        };
        proof {
            lemma_recompose(mag, 0u64);
        }
        let t: u64 = if !(crate::bits::fabs(im) == 0 && crate::bits::fabs(re) == 0) {
            fdiv(im, re)
        } else if fsign(ure) == fsign(vre) {
            ure
        } else if fsign(uim) == fsign(vim) {
            fdiv(ONE_BITS, uim)
        } else {
            fneg(fdiv(ONE_BITS, self.tan))
        };
        Phasor { mag, tan: t }
    }
}

} // verus!
