//! The Euclidean norm of the value.

use vstd::prelude::*;

use crate::bits::{abs_b, fabs, lemma_recompose, QNAN_BITS};
use crate::phasor::Phasor;

verus! {

impl Phasor {
    /// NaN for a NaN value, otherwise the magnitude with its sign bit
    /// cleared. Exact: no rounding is involved.
    pub fn norm(&self) -> (r: u64)
        ensures
            r == self.spec_norm(),
            !self.is_nan() ==> r == abs_b(self.mag),
            crate::bits::is_nan_b(r) <==> self.is_nan(),
            !crate::bits::sign_b(r),
    {
        proof {
            crate::bits::lemma_constants();
            lemma_recompose(self.mag, self.mag);
        }
        if self.is_nan() {
            QNAN_BITS
        } else {
            fabs(self.mag)
        }
    }
}

} // verus!
