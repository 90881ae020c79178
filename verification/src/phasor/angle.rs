//! The principal rotation angle of the value.
//!
//! The angle is `atan(tan)`, reflected into the opposite half-plane when
//! the magnitude is negative. The arctangent itself is a transcendental
//! scalar that Verus cannot evaluate, so the caller supplies `atan(tan)`
//! (from the platform's math library) and this function does the verified
//! branching and reflection around it; the contract is exact in that
//! argument. The result always satisfies `|angle| <= pi` when the
//! supplied arctangent does and carries the tangent's own sign, as any
//! real arctangent (which stays within pi/2) does.

use vstd::prelude::*;

use crate::arith::{add_bits, fadd};
use crate::bits::{
    copysign_bits, fcopysign, fneg, fsign, is_nan_b, le_abs, neg_bits, sign_b, PI_BITS, QNAN_BITS,
};
use crate::phasor::Phasor;

verus! {

/// The angle as a value: NaN for a NaN phasor; the supplied arctangent
/// for a non-negative magnitude; otherwise that arctangent minus pi
/// carrying the tangent's sign.
pub open spec fn angle_spec(p: Phasor, atan_of_tan: u64) -> u64 {
    if p.spec_is_nan() {
        QNAN_BITS
    } else if !sign_b(p.mag) {
        atan_of_tan
    } else {
        add_bits(atan_of_tan, neg_bits(copysign_bits(PI_BITS, p.tan)))
    }
}

impl Phasor {
    /// The principal angle, given `atan(self.tan)`. Whenever the caller
    /// supplies an arctangent of magnitude at most pi that carries the
    /// tangent's own sign (as any real arctangent does), the result stays
    /// within pi in magnitude: the reflection subtracts pi with the
    /// arctangent's sign, and an opposite-sign sum never exceeds its
    /// larger operand.
    pub fn angle(&self, atan_of_tan: u64) -> (r: u64)
        ensures
            r == angle_spec(*self, atan_of_tan),
            self.is_nan() ==> is_nan_b(r),
            !self.is_nan() && le_abs(atan_of_tan, PI_BITS) && (sign_b(atan_of_tan) == sign_b(
                self.tan,
            )) ==> le_abs(r, PI_BITS),
    {
        proof {
            crate::bits::lemma_constants();
        }
        if self.is_nan() {
            QNAN_BITS
        } else if !fsign(self.mag) {
            atan_of_tan
        } else {
            let w: u64 = fcopysign(PI_BITS, self.tan);
            let n: u64 = fneg(w);
            proof {
                crate::bits::lemma_copysign(PI_BITS, self.tan);
                crate::bits::lemma_neg(w);
            }
            fadd(atan_of_tan, n)
        }
    }
}

} // verus!
