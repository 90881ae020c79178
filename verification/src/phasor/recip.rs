//! Reciprocal: inverted magnitude, reflected angle.

use vstd::prelude::*;

use crate::arith::fdiv;
use crate::bits::{fneg, lemma_constants, lemma_neg, ONE_BITS};
use crate::phasor::Phasor;

verus! {

impl Phasor {
    /// `mag` becomes `1 / mag` (a zero magnitude gives an infinite one and
    /// the other way round); `tan` flips its sign. NaN propagates exactly.
    pub fn recip(&self) -> (r: Phasor)
        ensures
            r == self.spec_recip(),
            r.is_nan() <==> self.is_nan(),
            self.is_zero() ==> r.spec_is_infinite(),
            self.spec_is_infinite() ==> r.spec_is_zero(),
    {
        proof {
            lemma_constants();
            lemma_neg(self.tan);
        }
        Phasor { mag: fdiv(ONE_BITS, self.mag), tan: fneg(self.tan) }
    }
}

/// The angular half of the reciprocal is an involution: taking the
/// reciprocal twice restores the tangent bits exactly. The magnitude is
/// only restored up to rounding (`1 / (1 / m)` can differ from a normal
/// `m` by one unit in the last place), so no claim is made of it.
pub proof fn lemma_recip_tan_involutive(p: Phasor)
    ensures
        p.spec_recip().spec_recip().tan == p.tan,
{
    lemma_neg(p.tan);
}

} // verus!
