//! The logarithm in an arbitrary real base.
//!
//! `log(p, b)` is `ln(p) / polar(ln(b), 0)`. The tangent and cosine of
//! the zero angle are exactly zero and one, so the divisor needs only the
//! one transcendental scalar `ln(b)`, which the caller supplies along
//! with the two scalars the natural logarithm needs. The edge policy
//! follows from the quotient: a NaN `ln(b)` (negative or NaN base) makes
//! the result NaN, an infinite `ln(b)` (base zero or infinity) sends
//! finite logarithms to zero and infinite ones to NaN, and a zero
//! `ln(b)` (base one) sends non-unit values to infinity and the unit to
//! NaN.

use vstd::prelude::*;

use crate::arith::{div_bits, mul_bits};
use crate::bits::{is_finite_b, is_inf_b, is_nan_b, is_zero_b, signum_bits, ONE_BITS};
use crate::phasor::angle::angle_spec;
use crate::phasor::rect::rect_spec;
use crate::phasor::Phasor;
use crate::trig::{tansub_cos, tansub_sin};

verus! {

/// The dividend: the natural logarithm of the value, as `ln` builds it.
pub open spec fn log_num(p: Phasor, ln_of_norm: u64, atan_of_tan: u64) -> Phasor {
    rect_spec(ln_of_norm, angle_spec(p, atan_of_tan))
}

/// The divisor `polar(ln(b), 0)`: the zero angle has tangent exactly
/// zero and cosine exactly one, so only the magnitude is supplied.
pub open spec fn log_den(ln_of_base: u64) -> Phasor {
    Phasor { mag: mul_bits(ln_of_base, signum_bits(ONE_BITS)), tan: 0u64 }
}

/// The whole logarithm as a value: the phasor quotient of the natural
/// logarithm by the real divisor, spelled out through the division's own
/// tangent-difference form.
pub open spec fn log_spec(p: Phasor, ln_of_norm: u64, atan_of_tan: u64, ln_of_base: u64) -> Phasor {
    let num = log_num(p, ln_of_norm, atan_of_tan);
    let den = log_den(ln_of_base);
    Phasor {
        mag: div_bits(div_bits(num.mag, den.mag), signum_bits(tansub_cos(num.tan, den.tan))),
        tan: div_bits(tansub_sin(num.tan, den.tan), tansub_cos(num.tan, den.tan)),
    }
}

impl Phasor {
    /// The logarithm in base `b`, given `ln(self.norm())`,
    /// `atan(self.tan)` and `ln(b)`.
    pub fn log(&self, ln_of_norm: u64, atan_of_tan: u64, ln_of_base: u64) -> (r: Phasor)
        ensures
            r == log_spec(*self, ln_of_norm, atan_of_tan, ln_of_base),
            self.is_nan() ==> r.is_nan(),
            is_nan_b(ln_of_norm) ==> r.is_nan(),
            is_nan_b(ln_of_base) ==> r.is_nan(),
            is_inf_b(ln_of_base) && is_finite_b(log_num(*self, ln_of_norm, atan_of_tan).mag)
                && !is_nan_b(log_num(*self, ln_of_norm, atan_of_tan).tan) ==> r.spec_is_zero(),
            is_inf_b(ln_of_base) && is_inf_b(log_num(*self, ln_of_norm, atan_of_tan).mag)
                && !is_nan_b(log_num(*self, ln_of_norm, atan_of_tan).tan) ==> is_nan_b(r.mag),
            is_zero_b(ln_of_base) && !is_zero_b(log_num(*self, ln_of_norm, atan_of_tan).mag)
                && !is_nan_b(log_num(*self, ln_of_norm, atan_of_tan).mag) && !is_nan_b(
                log_num(*self, ln_of_norm, atan_of_tan).tan,
            ) ==> r.spec_is_infinite(),
            is_zero_b(ln_of_base) && is_zero_b(log_num(*self, ln_of_norm, atan_of_tan).mag)
                && !is_nan_b(log_num(*self, ln_of_norm, atan_of_tan).tan) ==> is_nan_b(r.mag),
    {
        proof {
            crate::bits::lemma_constants();
        }
        let num: Phasor = self.ln(ln_of_norm, atan_of_tan);
        let den: Phasor = Phasor::polar(ln_of_base, 0, ONE_BITS);
        num.div(&den)
    }
}

} // verus!
