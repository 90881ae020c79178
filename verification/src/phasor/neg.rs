//! Negation: a rotation by pi, folded into the magnitude's sign bit.

use vstd::prelude::*;

use crate::bits::{fneg, lemma_neg};
use crate::phasor::Phasor;

verus! {

impl Phasor {
    /// Flips the magnitude's sign; the tangent is untouched. Exact: no
    /// rounding is involved, and the classification is preserved (NaN in
    /// particular propagates).
    pub fn neg(&self) -> (r: Phasor)
        ensures
            r == self.spec_neg(),
            r.spec_classify() == self.spec_classify(),
    {
        proof {
            lemma_neg(self.mag);
        }
        Phasor { mag: fneg(self.mag), tan: self.tan }
    }
}

/// Negation is an involution: negating twice restores the value exactly,
/// bit for bit.
pub proof fn lemma_neg_involutive(p: Phasor)
    ensures
        p.spec_neg().spec_neg() == p,
{
    lemma_neg(p.mag);
}

} // verus!
