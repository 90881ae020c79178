//! The phasor value type: a signed magnitude paired with the tangent of
//! the rotation angle, both carried as binary64 bit patterns.

use vstd::prelude::*;

use crate::arith::div_bits;
use crate::bits::{neg_bits, ONE_BITS, QNAN_BITS};

pub mod add;
pub mod angle;
pub mod approx;
pub mod classify;
pub mod conj;
pub mod cosh;
pub mod div;
pub mod exp;
pub mod imag;
pub mod ln;
pub mod log;
pub mod mul;
pub mod neg;
pub mod norm;
pub mod polar;
pub mod real_part;
pub mod recip;
pub mod rect;
pub mod sinh;
pub mod sub;

verus! {

/// A complex number encoded as a signed magnitude `mag` and the tangent
/// `tan` of its rotation angle, each the bit pattern of a binary64 value.
/// `|mag|` is the Euclidean norm; the sign of `mag` folds a rotation by pi
/// into the magnitude so that `tan` can stay on the principal branch. The
/// pair is not a unique encoding of a complex number, and no operation
/// normalizes to a canonical form.
///
/// Equality derived here is bit-for-bit identity of the two patterns.
#[derive(Clone, Copy, Debug, PartialEq, Eq, Structural)]
pub struct Phasor {
    pub mag: u64,
    pub tan: u64,
}

/// The classification of a phasor, following the magnitude's binary64
/// category except that a NaN in either field makes the whole value NaN.
#[derive(Clone, Copy, Debug, PartialEq, Eq, Structural)]
pub enum Category {
    Nan,
    Infinite,
    Normal,
    Subnormal,
    Zero,
}

impl Phasor {
    /// The exact negation: the magnitude's sign bit flips, the tangent is
    /// untouched.
    pub open spec fn spec_neg(self) -> Phasor {
        Phasor { mag: neg_bits(self.mag), tan: self.tan }
    }

    /// The exact conjugation: the tangent's sign bit flips, the magnitude
    /// is untouched.
    pub open spec fn spec_conj(self) -> Phasor {
        Phasor { mag: self.mag, tan: neg_bits(self.tan) }
    }

    /// The reciprocal: the magnitude is inverted (with rounding), the
    /// tangent's sign bit flips.
    pub open spec fn spec_recip(self) -> Phasor {
        Phasor { mag: div_bits(ONE_BITS, self.mag), tan: neg_bits(self.tan) }
    }

    /// The norm as a pattern: NaN for a NaN value, `|mag|` otherwise.
    pub open spec fn spec_norm(&self) -> u64 {
        if self.spec_is_nan() {
            QNAN_BITS
        } else {
            crate::bits::abs_b(self.mag)
        }
    }
}

} // verus!
