//! Approximate equality: absolute, relative, and units-in-the-last-place
//! tolerance policies, mirroring the standard scalar comparisons.
//!
//! Two phasors compare equal when their absolute magnitudes compare
//! equal, the sine-like cross products of their angle components compare
//! equal, and the cosine of their angular difference has the sign of the
//! product of the magnitudes' signs — so the comparison respects the
//! complex value, not the encoding: the two encodings of one imaginary
//! number compare equal, while negating only one field does not. A NaN
//! component on either side makes every comparison false, including
//! against the value itself.

use vstd::prelude::*;

use crate::arith::{add_bits, fadd, fmul, mul_bits};
use crate::bits::{
    abs_b, eq_f, fabs, feq, fle, fneg, fsignum, is_finite_b, is_inf_b, is_nan_b, is_zero_b, le_f,
    lemma_constants, lemma_copysign, lemma_neg, lemma_recompose, neg_bits, sign_b, signum_bits,
    EPSILON_BITS, INF_BITS, NEG_ONE_BITS, ONE_BITS,
};
use crate::phasor::Phasor;
use crate::trig::{cosatan, cosatan_spec, sinatan, sinatan_spec};

verus! {

/// The absolute-difference comparison as a value: `|x - y| <= e` in
/// float order, false for any NaN among the operands and the tolerance.
pub open spec fn abs_diff_le_spec(x: u64, y: u64, e: u64) -> bool {
    le_f(abs_b(add_bits(x, neg_bits(y))), e)
}

/// The relative comparison as a value: equal values (infinities
/// included) compare equal, remaining infinities do not, and otherwise
/// the absolute difference is measured against the tolerance and against
/// the larger magnitude scaled by `m`.
pub open spec fn relative_le_spec(x: u64, y: u64, e: u64, m: u64) -> bool {
    let d = abs_b(add_bits(x, neg_bits(y)));
    let largest = if !is_nan_b(y) && !is_nan_b(x) && abs_b(y) > abs_b(x) {
        abs_b(y)
    } else {
        abs_b(x)
    };
    eq_f(x, y) || (!is_inf_b(x) && !is_inf_b(y) && (le_f(d, e) || le_f(d, mul_bits(largest, m))))
}

/// The units-in-the-last-place comparison as a value: the absolute test,
/// or (for operands whose signums compare equal as floats, which rules
/// out NaN) a raw bit-pattern distance of at most `max_ulps`.
pub open spec fn ulps_le_spec(x: u64, y: u64, e: u64, max_ulps: u32) -> bool {
    abs_diff_le_spec(x, y, e) || (eq_f(signum_bits(x), signum_bits(y)) && (if x <= y {
        y - x
    } else {
        x - y
    }) <= max_ulps)
}

/// The left sine-like cross product of the two angle components:
/// `sin(atan(p.tan)) * cos(atan(q.tan))`.
pub open spec fn cross_left(p: Phasor, q: Phasor) -> u64 {
    mul_bits(sinatan_spec(p.tan), cosatan_spec(q.tan))
}

/// The right sine-like cross product: `cos(atan(p.tan)) * sin(atan(q.tan))`.
pub open spec fn cross_right(p: Phasor, q: Phasor) -> u64 {
    mul_bits(cosatan_spec(p.tan), sinatan_spec(q.tan))
}

/// The signum of the cosine of the angular difference,
/// `sign(sin sin' + cos cos')`.
pub open spec fn rotation_signum(p: Phasor, q: Phasor) -> u64 {
    signum_bits(
        add_bits(
            mul_bits(sinatan_spec(p.tan), sinatan_spec(q.tan)),
            mul_bits(cosatan_spec(p.tan), cosatan_spec(q.tan)),
        ),
    )
}

/// The product of the two magnitudes' signums: the sign the cosine of
/// the angular difference must carry for the values to be equal.
pub open spec fn sign_product(p: Phasor, q: Phasor) -> u64 {
    mul_bits(signum_bits(p.mag), signum_bits(q.mag))
}

/// The absolute-difference comparison on scalars.
fn s_abs_diff_eq(x: u64, y: u64, e: u64) -> (r: bool)
    ensures
        r == abs_diff_le_spec(x, y, e),
        is_nan_b(x) || is_nan_b(y) || is_nan_b(e) ==> !r,
        x == y && is_finite_b(x) && !is_nan_b(e) && !sign_b(e) ==> r,
        is_zero_b(x) && is_zero_b(y) && !is_nan_b(e) && !sign_b(e) ==> r,
{
    proof {
        lemma_constants();
        lemma_neg(y);
    }
    let d: u64 = fabs(fadd(x, fneg(y)));
    proof {
        lemma_recompose(d, d);
    }
    fle(d, e)
}

/// The relative comparison on scalars.
fn s_relative_eq(x: u64, y: u64, e: u64, max_relative: u64) -> (r: bool)
    ensures
        r == relative_le_spec(x, y, e, max_relative),
        is_nan_b(x) || is_nan_b(y) ==> !r,
        x == y && !is_nan_b(x) ==> r,
        is_zero_b(x) && is_zero_b(y) ==> r,
{
    proof {
        lemma_constants();
        lemma_neg(y);
    }
    if feq(x, y) {
        return true;
    }
    if fabs(x) == INF_BITS || fabs(y) == INF_BITS {
        return false;
    }
    let d: u64 = fabs(fadd(x, fneg(y)));
    proof {
        lemma_recompose(d, d);
    }
    if fle(d, e) {
        return true;
    }
    let ax: u64 = fabs(x);
    let ay: u64 = fabs(y);
    let largest: u64 = if crate::bits::fgt_abs(y, x) {
        ay
    } else {
        ax
    };
    fle(d, fmul(largest, max_relative))
}

/// The units-in-the-last-place comparison on scalars.
fn s_ulps_eq(x: u64, y: u64, e: u64, max_ulps: u32) -> (r: bool)
    ensures
        r == ulps_le_spec(x, y, e, max_ulps),
        is_nan_b(x) || is_nan_b(y) ==> !r,
        x == y && !is_nan_b(x) ==> r,
        is_zero_b(x) && is_zero_b(y) && !is_nan_b(e) && !sign_b(e) ==> r,
{
    proof {
        lemma_constants();
        lemma_copysign(ONE_BITS, x);
        lemma_copysign(ONE_BITS, y);
    }
    if s_abs_diff_eq(x, y, e) {
        return true;
    }
    if !feq(fsignum(x), fsignum(y)) {
        return false;
    }
    if x <= y {
        y - x <= max_ulps as u64
    } else {
        x - y <= max_ulps as u64
    }
}

impl Phasor {
    /// Absolute-tolerance comparison: the three-way test, each scalar
    /// comparison an absolute one. False whenever either value is NaN
    /// (even against itself); true for a finite value compared with
    /// itself, and for the two encodings of one finite imaginary value,
    /// under a non-negative tolerance; false when exactly one field's
    /// sign is flipped on an imaginary value.
    pub fn abs_diff_eq(&self, other: &Phasor, epsilon: u64) -> (r: bool)
        ensures
            r == (abs_diff_le_spec(abs_b(self.mag), abs_b(other.mag), epsilon)
                && abs_diff_le_spec(cross_left(*self, *other), cross_right(*self, *other), epsilon)
                && eq_f(rotation_signum(*self, *other), sign_product(*self, *other))),
            self.is_nan() || other.is_nan() ==> !r,
            *other == *self && self.spec_is_finite() && !is_nan_b(epsilon) && !sign_b(epsilon)
                ==> r,
            is_inf_b(self.tan) && self.spec_is_finite() && *other == (Phasor {
                mag: neg_bits(self.mag),
                tan: neg_bits(self.tan),
            }) && !is_nan_b(epsilon) && !sign_b(epsilon) ==> r,
            is_inf_b(self.tan) && !self.is_nan() && *other == (Phasor {
                mag: self.mag,
                tan: neg_bits(self.tan),
            }) ==> !r,
            is_inf_b(self.tan) && !self.is_nan() && *other == (Phasor {
                mag: neg_bits(self.mag),
                tan: self.tan,
            }) ==> !r,
    {
        proof {
            lemma_constants();
            lemma_neg(self.mag);
            lemma_recompose(self.mag, other.mag);
            lemma_recompose(other.mag, self.mag);
        }
        let parts: (u64, u64, u64) = self.eq_parts(other);
        let c1: bool = s_abs_diff_eq(fabs(self.mag), fabs(other.mag), epsilon);
        let c2: bool = s_abs_diff_eq(parts.0, parts.1, epsilon);
        let c3: bool = feq(parts.2, self.eq_sign(other));
        c1 && c2 && c3
    }

    /// Relative-tolerance comparison: the three-way test, each scalar
    /// comparison a relative one. False whenever either value is NaN
    /// (even against itself); true for any non-NaN value compared with
    /// itself and for the two encodings of one imaginary value; false
    /// when exactly one field's sign is flipped on an imaginary value.
    pub fn relative_eq(&self, other: &Phasor, epsilon: u64, max_relative: u64) -> (r: bool)
        ensures
            r == (relative_le_spec(abs_b(self.mag), abs_b(other.mag), epsilon, max_relative)
                && relative_le_spec(
                cross_left(*self, *other),
                cross_right(*self, *other),
                epsilon,
                max_relative,
            ) && eq_f(rotation_signum(*self, *other), sign_product(*self, *other))),
            self.is_nan() || other.is_nan() ==> !r,
            *other == *self && !self.is_nan() ==> r,
            is_inf_b(self.tan) && !self.is_nan() && *other == (Phasor {
                mag: neg_bits(self.mag),
                tan: neg_bits(self.tan),
            }) ==> r,
            is_inf_b(self.tan) && !self.is_nan() && *other == (Phasor {
                mag: self.mag,
                tan: neg_bits(self.tan),
            }) ==> !r,
            is_inf_b(self.tan) && !self.is_nan() && *other == (Phasor {
                mag: neg_bits(self.mag),
                tan: self.tan,
            }) ==> !r,
    {
        proof {
            lemma_constants();
            lemma_neg(self.mag);
            lemma_recompose(self.mag, other.mag);
            lemma_recompose(other.mag, self.mag);
        }
        let parts: (u64, u64, u64) = self.eq_parts(other);
        let c1: bool = s_relative_eq(fabs(self.mag), fabs(other.mag), epsilon, max_relative);
        let c2: bool = s_relative_eq(parts.0, parts.1, epsilon, max_relative);
        let c3: bool = feq(parts.2, self.eq_sign(other));
        c1 && c2 && c3
    }

    /// Units-in-the-last-place comparison: the three-way test, each
    /// scalar comparison a ulps one. False whenever either value is NaN
    /// (even against itself); true for any non-NaN value compared with
    /// itself, and for the two encodings of one imaginary value under a
    /// non-negative tolerance; false when exactly one field's sign is
    /// flipped on an imaginary value.
    pub fn ulps_eq(&self, other: &Phasor, epsilon: u64, max_ulps: u32) -> (r: bool)
        ensures
            r == (ulps_le_spec(abs_b(self.mag), abs_b(other.mag), epsilon, max_ulps)
                && ulps_le_spec(
                cross_left(*self, *other),
                cross_right(*self, *other),
                epsilon,
                max_ulps,
            ) && eq_f(rotation_signum(*self, *other), sign_product(*self, *other))),
            self.is_nan() || other.is_nan() ==> !r,
            *other == *self && !self.is_nan() ==> r,
            is_inf_b(self.tan) && !self.is_nan() && *other == (Phasor {
                mag: neg_bits(self.mag),
                tan: neg_bits(self.tan),
            }) && !is_nan_b(epsilon) && !sign_b(epsilon) ==> r,
            is_inf_b(self.tan) && !self.is_nan() && *other == (Phasor {
                mag: self.mag,
                tan: neg_bits(self.tan),
            }) ==> !r,
            is_inf_b(self.tan) && !self.is_nan() && *other == (Phasor {
                mag: neg_bits(self.mag),
                tan: self.tan,
            }) ==> !r,
    {
        proof {
            lemma_constants();
            lemma_neg(self.mag);
            lemma_recompose(self.mag, other.mag);
            lemma_recompose(other.mag, self.mag);
        }
        let parts: (u64, u64, u64) = self.eq_parts(other);
        let c1: bool = s_ulps_eq(fabs(self.mag), fabs(other.mag), epsilon, max_ulps);
        let c2: bool = s_ulps_eq(parts.0, parts.1, epsilon, max_ulps);
        let c3: bool = feq(parts.2, self.eq_sign(other));
        c1 && c2 && c3
    }

    /// The two sine-like cross products of the angle components and the
    /// signum of the cosine of the angular difference: the angular pieces
    /// every tolerance policy compares. Equal tangents give equal cross
    /// products and a positive-unit signum; an imaginary tangent against
    /// its negation gives two signed zeros and the negative unit.
    fn eq_parts(&self, other: &Phasor) -> (r: (u64, u64, u64))
        ensures
            r.0 == cross_left(*self, *other),
            r.1 == cross_right(*self, *other),
            r.2 == rotation_signum(*self, *other),
            is_nan_b(self.tan) || is_nan_b(other.tan) ==> is_nan_b(r.0) && is_nan_b(r.1),
            other.tan == self.tan && !is_nan_b(self.tan) ==> r.0 == r.1 && !is_nan_b(r.0)
                && is_finite_b(r.0),
            other.tan == self.tan && !is_nan_b(self.tan) ==> r.2 == ONE_BITS,
            is_inf_b(self.tan) && other.tan == neg_bits(self.tan) ==> is_zero_b(r.0) && is_zero_b(
                r.1,
            ) && r.2 == NEG_ONE_BITS,
    {
        proof {
            lemma_constants();
            lemma_neg(ONE_BITS);
            lemma_neg(self.tan);
            lemma_copysign(ONE_BITS, self.tan);
            lemma_copysign(ONE_BITS, other.tan);
        }
        let sp: u64 = sinatan(self.tan);
        let cp: u64 = cosatan(self.tan);
        let sq: u64 = sinatan(other.tan);
        let cq: u64 = cosatan(other.tan);
        let m1: u64 = fmul(sp, cq);
        let m2: u64 = fmul(cp, sq);
        let m3: u64 = fmul(sp, sq);
        let m4: u64 = fmul(cp, cq);
        let t3: u64 = fadd(m3, m4);
        let st3: u64 = fsignum(t3);
        proof {
            lemma_recompose(sp, ONE_BITS);
            lemma_recompose(sp, NEG_ONE_BITS);
            lemma_recompose(sq, ONE_BITS);
            lemma_recompose(sq, NEG_ONE_BITS);
            lemma_recompose(t3, NEG_ONE_BITS);
            lemma_copysign(ONE_BITS, t3);
            lemma_recompose(st3, ONE_BITS);
            lemma_recompose(st3, NEG_ONE_BITS);
        }
        (m1, m2, st3)
    }

    /// The product of the two magnitudes' signums. The positive unit when
    /// the magnitudes are equal and not NaN, the negative unit when they
    /// are exact opposites.
    fn eq_sign(&self, other: &Phasor) -> (r: u64)
        ensures
            r == sign_product(*self, *other),
            other.mag == self.mag && !is_nan_b(self.mag) ==> r == ONE_BITS,
            other.mag == neg_bits(self.mag) && !is_nan_b(self.mag) ==> r == NEG_ONE_BITS,
    {
        proof {
            lemma_constants();
            lemma_copysign(ONE_BITS, self.mag);
            lemma_copysign(ONE_BITS, other.mag);
            lemma_neg(ONE_BITS);
            lemma_neg(self.mag);
        }
        let s1: u64 = fsignum(self.mag);
        let s2: u64 = fsignum(other.mag);
        proof {
            lemma_recompose(s1, ONE_BITS);
            lemma_recompose(s1, NEG_ONE_BITS);
            lemma_recompose(s2, ONE_BITS);
            lemma_recompose(s2, NEG_ONE_BITS);
        }
        fmul(s1, s2)
    }

    /// The tolerance used by the tolerance-free entry points: the machine
    /// epsilon.
    pub fn default_epsilon() -> (r: u64)
        ensures
            r == EPSILON_BITS,
    {
        EPSILON_BITS
    }

    /// The default relative tolerance: the machine epsilon.
    pub fn default_max_relative() -> (r: u64)
        ensures
            r == EPSILON_BITS,
    {
        EPSILON_BITS
    }

    /// The default units-in-the-last-place tolerance.
    pub fn default_max_ulps() -> (r: u32)
        ensures
            r == 4,
    {
        4
    }
}

} // verus!
