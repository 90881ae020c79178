//! Conjugation: a reflection across the real axis.

use vstd::prelude::*;

use crate::bits::{fneg, lemma_neg};
use crate::phasor::Phasor;

verus! {

impl Phasor {
    /// Flips the tangent's sign; the magnitude is untouched. Exact: no
    /// rounding is involved, and the classification is preserved (NaN in
    /// particular propagates).
    pub fn conj(&self) -> (r: Phasor)
        ensures
            r == self.spec_conj(),
            r.spec_classify() == self.spec_classify(),
    {
        proof {
            lemma_neg(self.tan);
        }
        Phasor { mag: self.mag, tan: fneg(self.tan) }
    }
}

/// Conjugation is an involution: conjugating twice restores the value
/// exactly, bit for bit.
pub proof fn lemma_conj_involutive(p: Phasor)
    ensures
        p.spec_conj().spec_conj() == p,
{
    lemma_neg(p.tan);
}

} // verus!
