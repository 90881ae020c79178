//! Rounding arithmetic on binary64 bit patterns.
//!
//! Verus has no floating-point theory, so the four rounding operations the
//! algebra needs (addition, multiplication, division, square root) are done
//! by the `softfp` crate, an IEEE-754 implementation in integer arithmetic
//! that works directly on the 64-bit patterns. Each operation sits behind
//! one trusted wrapper whose contract names its exact result and states the
//! sign, classification and exact-case rules of IEEE-754 round-to-nearest
//! that the verified callers rely on. Subtraction is not a separate
//! operation: `a - b` is computed as `a + (-b)`, which is how IEEE-754 (and
//! `softfp` itself) defines it. On top of the wrappers, `hypot_b` is a
//! fully verified Euclidean norm with the usual edge-case policy.

use vstd::prelude::*;

use crate::bits::{
    abs_b, fabs, fnan, is_finite_b, is_inf_b, is_nan_b, is_zero_b, le_abs, neg_bits, sign_b,
    HALF_BITS, INF_BITS, NEG_ONE_BITS, ONE_BITS, QNAN_BITS, TWO_BITS,
};

verus! {

#[verifier::external_type_specification]
#[verifier::external_body]
pub struct ExRoundingMode(softfp::RoundingMode);

#[verifier::external_type_specification]
#[verifier::external_body]
pub struct ExExceptionFlags(softfp::ExceptionFlags);

/// Relies on `softfp::RoundingMode::TiesToEven`: the rounding mode every
/// wrapper here installs before operating.
#[verifier::external_body]
fn rne() -> softfp::RoundingMode {
    softfp::RoundingMode::TiesToEven
}

/// Sink for `softfp`'s exception flags, which this crate does not observe.
#[verifier::external_body]
fn drop_flags(_f: softfp::ExceptionFlags) {
}

/// The IEEE-754 binary64 sum of the two patterns, rounded to nearest, ties
/// to even.
pub uninterp spec fn add_bits(a: u64, b: u64) -> u64;

/// The IEEE-754 binary64 product of the two patterns, rounded to nearest,
/// ties to even.
pub uninterp spec fn mul_bits(a: u64, b: u64) -> u64;

/// The IEEE-754 binary64 quotient of the two patterns, rounded to nearest,
/// ties to even.
pub uninterp spec fn div_bits(a: u64, b: u64) -> u64;

/// The IEEE-754 binary64 square root of the pattern, rounded to nearest,
/// ties to even.
pub uninterp spec fn sqrt_bits(a: u64) -> u64;

/// Relies on `softfp::F64`'s `Add`: IEEE-754 addition, round to nearest,
/// ties to even, with the canonical quiet NaN for every NaN result, so the
/// result is a function of the operand patterns alone and is symmetric in
/// them. The clauses state the IEEE-754 rules the callers need: when the
/// sum is NaN; that a zero, and a finite operand's exact negative, are
/// neutral or cancel exactly; that an infinite operand wins over a finite
/// one; how signs and small magnitudes behave; and that an opposite-sign
/// sum never exceeds the larger operand in magnitude.
#[verifier::external_body]
pub(crate) fn fadd(a: u64, b: u64) -> (r: u64)
    ensures
        r == add_bits(a, b),
        r == add_bits(b, a),
        is_nan_b(r) ==> r == QNAN_BITS,
        is_nan_b(r) <==> (is_nan_b(a) || is_nan_b(b) || (is_inf_b(a) && is_inf_b(b) && sign_b(a)
            != sign_b(b))),
        !is_nan_b(a) && !is_zero_b(a) && is_zero_b(b) ==> r == a,
        !is_nan_b(b) && !is_zero_b(b) && is_zero_b(a) ==> r == b,
        is_zero_b(a) && is_zero_b(b) && sign_b(a) == sign_b(b) ==> r == a,
        is_zero_b(a) && is_zero_b(b) && sign_b(a) != sign_b(b) ==> r == 0,
        is_finite_b(a) && b == neg_bits(a) ==> r == 0,
        is_inf_b(a) && !is_nan_b(b) && !is_inf_b(b) ==> r == a,
        is_inf_b(b) && !is_nan_b(a) && !is_inf_b(a) ==> r == b,
        !is_nan_b(r) && sign_b(a) == sign_b(b) ==> sign_b(r) == sign_b(a),
        sign_b(a) == sign_b(b) && !is_nan_b(a) && !is_nan_b(b) && !(is_zero_b(a) && is_zero_b(b))
            ==> !is_zero_b(r),
        !is_nan_b(r) && le_abs(a, ONE_BITS) && le_abs(b, ONE_BITS) ==> le_abs(r, TWO_BITS),
        a == ONE_BITS && !sign_b(b) && !is_nan_b(r) ==> le_abs(ONE_BITS, r),
        !is_nan_b(r) && sign_b(a) != sign_b(b) ==> le_abs(r, a) || le_abs(r, b),
{
    softfp::register_get_rounding_mode(rne);
    softfp::register_set_exception_flags(drop_flags);
    (softfp::F64::new(a) + softfp::F64::new(b)).0
}

/// Relies on `softfp::F64`'s `Mul`: IEEE-754 multiplication, round to
/// nearest, ties to even, with the canonical quiet NaN for every NaN
/// result, so the result is a function of the operand patterns alone and is
/// symmetric in them. The clauses state the IEEE-754 rules the callers
/// need: when the product is NaN; that the sign is the exclusive or of the
/// operand signs and the magnitude depends on the magnitudes alone; that
/// multiplying by a unit is exact; and how zeros, infinities and magnitude
/// bounds carry through.
#[verifier::external_body]
pub(crate) fn fmul(a: u64, b: u64) -> (r: u64)
    ensures
        r == mul_bits(a, b),
        r == mul_bits(b, a),
        is_nan_b(r) ==> r == QNAN_BITS,
        is_nan_b(r) <==> (is_nan_b(a) || is_nan_b(b) || (is_zero_b(a) && is_inf_b(b)) || (
        is_inf_b(a) && is_zero_b(b))),
        !is_nan_b(r) ==> sign_b(r) == (sign_b(a) != sign_b(b)),
        abs_b(r) == mul_bits(abs_b(a), abs_b(b)),
        !is_nan_b(a) && b == ONE_BITS ==> r == a,
        !is_nan_b(b) && a == ONE_BITS ==> r == b,
        !is_nan_b(a) && b == NEG_ONE_BITS ==> r == neg_bits(a),
        !is_nan_b(b) && a == NEG_ONE_BITS ==> r == neg_bits(b),
        is_zero_b(a) && is_finite_b(b) ==> is_zero_b(r),
        is_zero_b(b) && is_finite_b(a) ==> is_zero_b(r),
        is_inf_b(a) && !is_nan_b(b) && !is_zero_b(b) ==> is_inf_b(r),
        is_inf_b(b) && !is_nan_b(a) && !is_zero_b(a) ==> is_inf_b(r),
        !is_nan_b(r) && le_abs(a, ONE_BITS) && le_abs(b, ONE_BITS) ==> le_abs(r, ONE_BITS),
        !is_nan_b(r) && le_abs(ONE_BITS, b) ==> le_abs(a, r),
        !is_nan_b(r) && le_abs(ONE_BITS, a) ==> le_abs(b, r),
        le_abs(HALF_BITS, a) && le_abs(HALF_BITS, b) && !is_nan_b(r) ==> !is_zero_b(r),
{
    softfp::register_get_rounding_mode(rne);
    softfp::register_set_exception_flags(drop_flags);
    (softfp::F64::new(a) * softfp::F64::new(b)).0
}

/// Relies on `softfp::F64`'s `Div`: IEEE-754 division, round to nearest,
/// ties to even, with the canonical quiet NaN for every NaN result, so the
/// result is a function of the operand patterns alone. The clauses state
/// the IEEE-754 rules the callers need: when the quotient is NaN; that the
/// sign is the exclusive or of the operand signs and the magnitude depends
/// on the magnitudes alone; that dividing by a unit is exact; how zeros and
/// infinities arise; that a quotient with the numerator no larger than the
/// denominator is at most one; and that the reciprocal of a finite non-zero
/// value is never zero.
#[verifier::external_body]
pub(crate) fn fdiv(a: u64, b: u64) -> (r: u64)
    ensures
        r == div_bits(a, b),
        is_nan_b(r) ==> r == QNAN_BITS,
        is_nan_b(r) <==> (is_nan_b(a) || is_nan_b(b) || (is_zero_b(a) && is_zero_b(b)) || (
        is_inf_b(a) && is_inf_b(b))),
        !is_nan_b(r) ==> sign_b(r) == (sign_b(a) != sign_b(b)),
        abs_b(r) == div_bits(abs_b(a), abs_b(b)),
        !is_nan_b(a) && b == ONE_BITS ==> r == a,
        !is_nan_b(a) && b == NEG_ONE_BITS ==> r == neg_bits(a),
        is_zero_b(a) && !is_zero_b(b) && !is_nan_b(b) ==> is_zero_b(r),
        is_inf_b(b) && is_finite_b(a) ==> is_zero_b(r),
        !is_nan_b(a) && !is_zero_b(a) && is_zero_b(b) ==> is_inf_b(r),
        is_inf_b(a) && is_finite_b(b) ==> is_inf_b(r),
        !is_nan_b(r) && le_abs(a, b) ==> le_abs(r, ONE_BITS),
        a == ONE_BITS && !is_zero_b(b) && is_finite_b(b) ==> !is_zero_b(r),
        a == ONE_BITS && le_abs(b, TWO_BITS) && !is_zero_b(b) ==> le_abs(HALF_BITS, r),
{
    softfp::register_get_rounding_mode(rne);
    softfp::register_set_exception_flags(drop_flags);
    (softfp::F64::new(a) / softfp::F64::new(b)).0
}

/// Relies on `softfp::F64::square_root`: IEEE-754 square root, round to
/// nearest, ties to even, with the canonical quiet NaN for every NaN
/// result, so the result is a function of the operand pattern alone. The
/// clauses state the IEEE-754 rules the callers need: the root is NaN
/// exactly for NaN and negative non-zero inputs; zeros, the unit and
/// positive infinity are exact; and the root of a positive finite value is
/// positive, finite, and at least one or at most two when the input is.
#[verifier::external_body]
pub(crate) fn fsqrt(a: u64) -> (r: u64)
    ensures
        r == sqrt_bits(a),
        is_nan_b(r) ==> r == QNAN_BITS,
        is_nan_b(r) <==> (is_nan_b(a) || (sign_b(a) && !is_zero_b(a))),
        !is_nan_b(r) ==> sign_b(r) == sign_b(a),
        is_zero_b(a) ==> r == a,
        a == INF_BITS ==> r == a,
        a == ONE_BITS ==> r == ONE_BITS,
        !is_nan_b(r) ==> (is_zero_b(r) <==> is_zero_b(a)),
        !is_inf_b(a) ==> !is_inf_b(r),
        !is_nan_b(r) && le_abs(a, TWO_BITS) ==> le_abs(r, TWO_BITS),
        !is_nan_b(r) && le_abs(ONE_BITS, a) ==> le_abs(ONE_BITS, r),
{
    softfp::register_get_rounding_mode(rne);
    softfp::register_set_exception_flags(drop_flags);
    softfp::F64::new(a).square_root().0
}

/// The Euclidean norm `sqrt(a^2 + b^2)` of two patterns, computed by
/// scaling with the larger magnitude so that no intermediate overflows
/// while both legs are finite: `hi * sqrt(1 + (lo/hi)^2)`.
pub open spec fn hypot_spec(a: u64, b: u64) -> u64 {
    if is_inf_b(a) || is_inf_b(b) {
        INF_BITS
    } else if is_nan_b(a) || is_nan_b(b) {
        QNAN_BITS
    } else {
        let hi = if abs_b(a) >= abs_b(b) {
            abs_b(a)
        } else {
            abs_b(b)
        };
        let lo = if abs_b(a) >= abs_b(b) {
            abs_b(b)
        } else {
            abs_b(a)
        };
        if hi == 0 {
            0
        } else if lo == 0 {
            hi
        } else {
            mul_bits(
                hi,
                sqrt_bits(add_bits(ONE_BITS, mul_bits(div_bits(lo, hi), div_bits(lo, hi)))),
            )
        }
    }
}

/// Euclidean norm with the usual edge-case policy: an infinite leg wins
/// even over NaN, NaN otherwise propagates, a zero leg gives the other
/// leg's magnitude exactly, and the result is never negative and never
/// zero or NaN for non-degenerate legs.
pub fn hypot_b(a: u64, b: u64) -> (r: u64)
    ensures
        r == hypot_spec(a, b),
        is_nan_b(r) <==> (!is_inf_b(a) && !is_inf_b(b) && (is_nan_b(a) || is_nan_b(b))),
        !is_nan_b(r) ==> !sign_b(r),
        !is_nan_b(a) && !is_nan_b(b) && !(is_zero_b(a) && is_zero_b(b)) ==> !is_zero_b(r),
        is_zero_b(a) && !is_nan_b(b) ==> r == abs_b(b),
        is_zero_b(b) && !is_nan_b(a) ==> r == abs_b(a),
        !is_nan_b(a) && !is_nan_b(b) ==> le_abs(a, r) && le_abs(b, r),
        a == ONE_BITS && le_abs(b, ONE_BITS) ==> !is_nan_b(r) && le_abs(ONE_BITS, r) && le_abs(
            r,
            TWO_BITS,
        ),
{
    proof {
        crate::bits::lemma_constants();
        crate::bits::lemma_recompose(a, b);
        crate::bits::lemma_recompose(b, a);
    }
    if fabs(a) == INF_BITS || fabs(b) == INF_BITS {
        return INF_BITS;
    }
    if fnan(a) || fnan(b) {
        return QNAN_BITS;
    }
    let aa: u64 = fabs(a);
    let ab: u64 = fabs(b);
    let hi: u64 = if aa >= ab {
        aa
    } else {
        ab
    };
    let lo: u64 = if aa >= ab {
        ab
    } else {
        aa
    };
    if hi == 0 {
        return 0;
    }
    if lo == 0 {
        return hi;
    }
    let q: u64 = fdiv(lo, hi);
    let s2: u64 = fmul(q, q);
    let t: u64 = fadd(ONE_BITS, s2);
    let w: u64 = fsqrt(t);
    fmul(hi, w)
}

} // verus!
