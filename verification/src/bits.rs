//! Bit-level model of IEEE-754 binary64 values.
//!
//! Every double-precision value is carried as its 64-bit pattern: one sign
//! bit, eleven exponent bits and fifty-two fraction bits. Sign manipulation
//! (negation, absolute value, copysign, signum) and classification are exact
//! integer operations on that pattern, so they are implemented and verified
//! here directly; only rounding arithmetic needs outside help.

use vstd::prelude::*;

verus! {

pub const SIGN_MASK: u64 = 0x8000_0000_0000_0000;

pub const ABS_MASK: u64 = 0x7FFF_FFFF_FFFF_FFFF;

/// Smallest positive normal double, `2^-1022`.
pub const MIN_NORMAL_BITS: u64 = 0x0010_0000_0000_0000;

/// Positive infinity.
pub const INF_BITS: u64 = 0x7FF0_0000_0000_0000;

/// The canonical quiet NaN.
pub const QNAN_BITS: u64 = 0x7FF8_0000_0000_0000;

pub const ONE_BITS: u64 = 0x3FF0_0000_0000_0000;

pub const NEG_ONE_BITS: u64 = 0xBFF0_0000_0000_0000;

pub const TWO_BITS: u64 = 0x4000_0000_0000_0000;

/// `1 / sqrt(2)`, the cosine of a 45 degree angle.
pub const FRAC_1_SQRT_2_BITS: u64 = 0x3FE6_A09E_667F_3BCD;

/// The double closest to pi.
pub const PI_BITS: u64 = 0x4009_21FB_5444_2D18;

/// The machine epsilon, `2^-52`.
pub const EPSILON_BITS: u64 = 0x3CB0_0000_0000_0000;

/// One half.
pub const HALF_BITS: u64 = 0x3FE0_0000_0000_0000;

/// The sign bit of the pattern: set exactly for negative doubles
/// (including `-0.0`, negative infinity and NaNs with the sign bit set).
pub open spec fn sign_b(b: u64) -> bool {
    b & SIGN_MASK != 0
}

/// The pattern with the sign bit cleared: the absolute value. For non-NaN
/// patterns the unsigned order of `abs_b` agrees with the numeric order of
/// the absolute values, which is what makes exact magnitude comparison
/// possible without arithmetic.
pub open spec fn abs_b(b: u64) -> u64 {
    b & ABS_MASK
}

/// NaN: exponent all ones and a non-zero fraction, i.e. every pattern whose
/// absolute part lies strictly above the infinity pattern.
pub open spec fn is_nan_b(b: u64) -> bool {
    abs_b(b) > INF_BITS
}

pub open spec fn is_inf_b(b: u64) -> bool {
    abs_b(b) == INF_BITS
}

pub open spec fn is_zero_b(b: u64) -> bool {
    abs_b(b) == 0
}

pub open spec fn is_subnormal_b(b: u64) -> bool {
    0 < abs_b(b) < MIN_NORMAL_BITS
}

pub open spec fn is_normal_b(b: u64) -> bool {
    MIN_NORMAL_BITS <= abs_b(b) < INF_BITS
}

pub open spec fn is_finite_b(b: u64) -> bool {
    abs_b(b) < INF_BITS
}

/// Negation of a double is exactly a flip of its sign bit.
pub open spec fn neg_bits(b: u64) -> u64 {
    b ^ SIGN_MASK
}

/// The magnitude of `b` with the sign of `s`.
pub open spec fn copysign_bits(b: u64, s: u64) -> u64 {
    (b & ABS_MASK) | (s & SIGN_MASK)
}

/// `signum`: the unit with `b`'s sign, or the quiet NaN for NaN input.
pub open spec fn signum_bits(b: u64) -> u64 {
    if is_nan_b(b) {
        QNAN_BITS
    } else {
        copysign_bits(ONE_BITS, b)
    }
}

/// `|b| <= |c|` in the numeric order of non-NaN doubles.
pub open spec fn le_abs(b: u64, c: u64) -> bool {
    abs_b(b) <= abs_b(c)
}

/// The smaller of `|b|` and one, with NaN mapped to one as the float
/// `min` of a NaN and a number is the number.
pub open spec fn min1_bits(b: u64) -> u64 {
    if is_nan_b(b) || abs_b(b) > ONE_BITS {
        ONE_BITS
    } else {
        abs_b(b)
    }
}

/// The larger of `|b|` and one, with NaN mapped to one as the float
/// `max` of a NaN and a number is the number.
pub open spec fn max1_bits(b: u64) -> u64 {
    if is_nan_b(b) || abs_b(b) < ONE_BITS {
        ONE_BITS
    } else {
        abs_b(b)
    }
}

/// The float order `a <= b`: false whenever either operand is NaN, true
/// for any two zeros, and otherwise the sign-magnitude order.
pub open spec fn le_f(a: u64, b: u64) -> bool {
    if is_nan_b(a) || is_nan_b(b) {
        false
    } else if is_zero_b(a) && is_zero_b(b) {
        true
    } else if sign_b(a) != sign_b(b) {
        sign_b(a)
    } else if !sign_b(a) {
        abs_b(a) <= abs_b(b)
    } else {
        abs_b(b) <= abs_b(a)
    }
}

/// The float equality `a == b`: false whenever either operand is NaN,
/// and identifying the two zeros.
pub open spec fn eq_f(a: u64, b: u64) -> bool {
    !is_nan_b(a) && !is_nan_b(b) && (a == b || (is_zero_b(a) && is_zero_b(b)))
}

pub fn fle(a: u64, b: u64) -> (r: bool)
    ensures
        r == le_f(a, b),
{
    if fnan(a) || fnan(b) {
        false
    } else if fabs(a) == 0 && fabs(b) == 0 {
        true
    } else if fsign(a) != fsign(b) {
        fsign(a)
    } else if !fsign(a) {
        fabs(a) <= fabs(b)
    } else {
        fabs(b) <= fabs(a)
    }
}

pub fn feq(a: u64, b: u64) -> (r: bool)
    ensures
        r == eq_f(a, b),
{
    !fnan(a) && !fnan(b) && (a == b || (fabs(a) == 0 && fabs(b) == 0))
}

pub fn fneg(b: u64) -> (r: u64)
    ensures
        r == neg_bits(b),
{
    b ^ SIGN_MASK
}

pub fn fabs(b: u64) -> (r: u64)
    ensures
        r == abs_b(b),
{
    b & ABS_MASK
}

pub fn fcopysign(b: u64, s: u64) -> (r: u64)
    ensures
        r == copysign_bits(b, s),
{
    (b & ABS_MASK) | (s & SIGN_MASK)
}

pub fn fsign(b: u64) -> (r: bool)
    ensures
        r == sign_b(b),
{
    b & SIGN_MASK != 0
}

pub fn fnan(b: u64) -> (r: bool)
    ensures
        r == is_nan_b(b),
{
    b & ABS_MASK > INF_BITS
}

pub fn fsignum(b: u64) -> (r: u64)
    ensures
        r == signum_bits(b),
{
    if fnan(b) {
        QNAN_BITS
    } else {
        fcopysign(ONE_BITS, b)
    }
}

pub fn fmin1(b: u64) -> (r: u64)
    ensures
        r == min1_bits(b),
{
    let a: u64 = fabs(b);
    if fnan(b) || a > ONE_BITS {
        ONE_BITS
    } else {
        a
    }
}

pub fn fmax1(b: u64) -> (r: u64)
    ensures
        r == max1_bits(b),
{
    let a: u64 = fabs(b);
    if fnan(b) || a < ONE_BITS {
        ONE_BITS
    } else {
        a
    }
}

/// `|b| > |c|` as the float comparison computes it: false whenever either
/// operand is NaN, otherwise the unsigned order of the absolute patterns.
pub fn fgt_abs(b: u64, c: u64) -> (r: bool)
    ensures
        r == (!is_nan_b(b) && !is_nan_b(c) && abs_b(b) > abs_b(c)),
{
    !fnan(b) && !fnan(c) && fabs(b) > fabs(c)
}

/// Sign-bit algebra: flipping the sign leaves the magnitude alone, flips
/// the sign, and flipping twice restores the pattern.
pub proof fn lemma_neg(b: u64)
    by (bit_vector)
    ensures
        abs_b(neg_bits(b)) == abs_b(b),
        sign_b(neg_bits(b)) == !sign_b(b),
        neg_bits(neg_bits(b)) == b,
{
}

/// Copysign keeps the magnitude of its first operand and takes the sign of
/// its second.
pub proof fn lemma_copysign(b: u64, s: u64)
    by (bit_vector)
    ensures
        abs_b(copysign_bits(b, s)) == abs_b(b),
        sign_b(copysign_bits(b, s)) == sign_b(s),
{
}

/// A pattern is determined by its magnitude bits and its sign bit.
pub proof fn lemma_recompose(b: u64, c: u64)
    by (bit_vector)
    ensures
        abs_b(b) == abs_b(c) && sign_b(b) == sign_b(c) ==> b == c,
        abs_b(abs_b(b)) == abs_b(b),
        !sign_b(abs_b(b)),
{
}

/// Concrete classifications of the named constants.
pub proof fn lemma_constants()
    by (bit_vector)
    ensures
        abs_b(0u64) == 0,
        !sign_b(0u64),
        abs_b(SIGN_MASK) == 0,
        sign_b(SIGN_MASK),
        abs_b(ONE_BITS) == ONE_BITS,
        !sign_b(ONE_BITS),
        abs_b(NEG_ONE_BITS) == ONE_BITS,
        sign_b(NEG_ONE_BITS),
        neg_bits(ONE_BITS) == NEG_ONE_BITS,
        abs_b(TWO_BITS) == TWO_BITS,
        !sign_b(TWO_BITS),
        abs_b(INF_BITS) == INF_BITS,
        !sign_b(INF_BITS),
        abs_b(QNAN_BITS) == QNAN_BITS,
        !sign_b(QNAN_BITS),
        abs_b(HALF_BITS) == HALF_BITS,
        !sign_b(HALF_BITS),
        abs_b(EPSILON_BITS) == EPSILON_BITS,
        !sign_b(EPSILON_BITS),
        abs_b(FRAC_1_SQRT_2_BITS) == FRAC_1_SQRT_2_BITS,
        !sign_b(FRAC_1_SQRT_2_BITS),
        abs_b(PI_BITS) == PI_BITS,
        !sign_b(PI_BITS),
{
}

} // verus!
