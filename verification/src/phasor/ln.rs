//! The natural logarithm.
//!
//! `ln(p)` is the phasor with real part `ln(norm(p))` and imaginary part
//! `angle(p)`. The logarithm of the norm and the arctangent of the
//! tangent are transcendental scalars, so the caller supplies them and
//! this function does the verified reflection and rectangular assembly.

use vstd::prelude::*;

use crate::bits::is_nan_b;
use crate::phasor::angle::angle_spec;
use crate::phasor::rect::rect_spec;
use crate::phasor::Phasor;

verus! {

impl Phasor {
    /// The natural logarithm, given `ln(self.norm())` and
    /// `atan(self.tan)`.
    pub fn ln(&self, ln_of_norm: u64, atan_of_tan: u64) -> (r: Phasor)
        ensures
            r == rect_spec(ln_of_norm, angle_spec(*self, atan_of_tan)),
            self.is_nan() ==> r.is_nan(),
            is_nan_b(ln_of_norm) ==> r.is_nan(),
    {
        let a: u64 = self.angle(atan_of_tan);
        Phasor::rect(ln_of_norm, a)
    }
}

} // verus!
