//! The complex exponential.
//!
//! `exp(p)` is the phasor with magnitude `exp(real(p))` at angle
//! `imag(p)`. The three scalars (`exp` of the real part, `tan` and `cos`
//! of the imaginary part) are transcendental, so the caller supplies them
//! and this function does the verified polar assembly. An infinite
//! non-real input makes `cos(imag)` NaN (the cosine of an infinity), so
//! the result is NaN as required; a NaN input propagates through any of
//! the scalars.

use vstd::prelude::*;

use crate::arith::mul_bits;
use crate::bits::{is_nan_b, neg_bits, sign_b, signum_bits};
use crate::phasor::Phasor;

verus! {

impl Phasor {
    /// The exponential, given `exp(self.real_part())`,
    /// `tan(self.imag())` and `cos(self.imag())`.
    pub fn exp(&self, exp_of_real: u64, tan_of_imag: u64, cos_of_imag: u64) -> (r: Phasor)
        ensures
            r.tan == tan_of_imag,
            r.mag == mul_bits(exp_of_real, signum_bits(cos_of_imag)),
            !is_nan_b(exp_of_real) && !is_nan_b(cos_of_imag) && !sign_b(cos_of_imag) ==> r.mag
                == exp_of_real,
            !is_nan_b(exp_of_real) && !is_nan_b(cos_of_imag) && sign_b(cos_of_imag) ==> r.mag
                == neg_bits(exp_of_real),
            is_nan_b(exp_of_real) || is_nan_b(cos_of_imag) ==> is_nan_b(r.mag),
    {
        Phasor::polar(exp_of_real, tan_of_imag, cos_of_imag)
    }
}

} // verus!
