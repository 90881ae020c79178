//! Construction from polar coordinates.
//!
//! The tangent and the cosine of the angle are transcendental scalars
//! that Verus cannot evaluate, so the caller supplies `tan(angle)` and
//! `cos(angle)` (from the platform's math library) and this function does
//! the verified sign folding: a negative cosine means a second or third
//! quadrant angle, which is folded into the magnitude's sign so that the
//! tangent stays on the principal branch. An infinite or NaN angle yields
//! NaN scalars and hence a NaN phasor.

use vstd::prelude::*;

use crate::arith::{fmul, mul_bits};
use crate::bits::{
    copysign_bits, fsignum, is_nan_b, lemma_constants, lemma_copysign, lemma_recompose, neg_bits,
    sign_b, signum_bits, NEG_ONE_BITS, ONE_BITS,
};
use crate::phasor::Phasor;

verus! {

impl Phasor {
    /// The phasor with magnitude `mag` at an angle given by its tangent
    /// and cosine: `mag` is multiplied by the cosine's signum (an exact
    /// sign flip), and the tangent is taken as supplied.
    pub fn polar(mag: u64, tan_of_angle: u64, cos_of_angle: u64) -> (r: Phasor)
        ensures
            r.tan == tan_of_angle,
            r.mag == mul_bits(mag, signum_bits(cos_of_angle)),
            !is_nan_b(mag) && !is_nan_b(cos_of_angle) && !sign_b(cos_of_angle) ==> r.mag == mag,
            !is_nan_b(mag) && !is_nan_b(cos_of_angle) && sign_b(cos_of_angle) ==> r.mag
                == neg_bits(mag),
            is_nan_b(mag) || is_nan_b(cos_of_angle) ==> is_nan_b(r.mag),
    {
        proof {
            lemma_constants();
            lemma_copysign(ONE_BITS, cos_of_angle);
            lemma_recompose(copysign_bits(ONE_BITS, cos_of_angle), ONE_BITS);
            lemma_recompose(copysign_bits(ONE_BITS, cos_of_angle), NEG_ONE_BITS);
        }
        Phasor { mag: fmul(mag, fsignum(cos_of_angle)), tan: tan_of_angle }
    }
}

} // verus!
