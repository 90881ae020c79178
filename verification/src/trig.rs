//! Angle-free trigonometric kernel.
//!
//! Pure functions on one or two tangent-domain scalars: the sine and
//! cosine of an angle given only by its tangent (or by a sine/cosine-like
//! pair), and the sine/cosine pair of a sum or difference of two such
//! angles, computed without any inverse trigonometric function. Each input
//! is pre-scaled into a signed unit part and the reciprocal of its
//! overflow part so that the identities stay stable across the whole
//! range, including infinite tangents. NaN propagates through every
//! function here.

use vstd::prelude::*;

use crate::arith::{add_bits, div_bits, fadd, fdiv, fmul, hypot_b, hypot_spec, mul_bits};
use crate::bits::{
    abs_b, copysign_bits, fcopysign, fgt_abs, fmax1, fmin1, fnan, fneg, is_inf_b, is_nan_b,
    is_zero_b, le_abs, lemma_constants, lemma_copysign, lemma_neg, lemma_recompose, max1_bits,
    HALF_BITS,
    min1_bits, neg_bits, sign_b, FRAC_1_SQRT_2_BITS, NEG_ONE_BITS, ONE_BITS, QNAN_BITS,
    TWO_BITS,
};

verus! {

/// The signed unit part of a tangent: `sign(x) * min(|x|, 1)`, with NaN
/// kept NaN. Exact, so it is computed directly in sign-and-magnitude form.
pub open spec fn unit_part(x: u64) -> u64 {
    if is_nan_b(x) {
        QNAN_BITS
    } else {
        copysign_bits(min1_bits(x), x)
    }
}

/// The reciprocal of the overflow part of a tangent: `1 / max(|x|, 1)`.
/// Never negative, never NaN, at most one, and zero exactly for an
/// infinite tangent.
pub open spec fn recip_over(x: u64) -> u64 {
    div_bits(ONE_BITS, max1_bits(x))
}

/// The sine-like component of `atan(x) - atan(y)`:
/// `xs * yc - xc * ys` over the scaled parts.
pub open spec fn tansub_sin(x: u64, y: u64) -> u64 {
    add_bits(
        mul_bits(unit_part(x), recip_over(y)),
        neg_bits(mul_bits(recip_over(x), unit_part(y))),
    )
}

/// The cosine-like component of `atan(x) - atan(y)`:
/// `xs * ys + xc * yc` over the scaled parts.
pub open spec fn tansub_cos(x: u64, y: u64) -> u64 {
    add_bits(mul_bits(unit_part(x), unit_part(y)), mul_bits(recip_over(x), recip_over(y)))
}

/// The cosine of the angle `atan2(s, c)`, scaled by the larger of the two
/// operands so that nothing overflows; the result always carries the sign
/// of `c`. At the degenerate origin (and whenever the magnitudes tie) the
/// magnitude is `1/sqrt(2)` by convention; a NaN operand propagates, with
/// its payload, once both magnitude comparisons have failed.
pub open spec fn cosatan2_spec(s: u64, c: u64) -> u64 {
    if !is_nan_b(s) && !is_nan_b(c) && abs_b(s) > abs_b(c) {
        div_bits(copysign_bits(div_bits(c, s), c), hypot_spec(ONE_BITS, div_bits(c, s)))
    } else if !is_nan_b(s) && !is_nan_b(c) && abs_b(s) < abs_b(c) {
        copysign_bits(div_bits(ONE_BITS, hypot_spec(ONE_BITS, div_bits(s, c))), c)
    } else if is_nan_b(s) {
        copysign_bits(s, c)
    } else if is_nan_b(c) {
        c
    } else {
        copysign_bits(FRAC_1_SQRT_2_BITS, c)
    }
}

/// The sine of `atan(t)` as a value: the swapped-pair cosine carrying
/// the tangent's sign.
pub open spec fn sinatan_spec(t: u64) -> u64 {
    copysign_bits(cosatan2_spec(ONE_BITS, t), t)
}

/// The cosine of `atan(t)` as a value.
pub open spec fn cosatan_spec(t: u64) -> u64 {
    cosatan2_spec(t, ONE_BITS)
}

fn funit(x: u64) -> (r: u64)
    ensures
        r == unit_part(x),
        is_nan_b(r) <==> is_nan_b(x),
        abs_b(r) == if is_nan_b(x) {
            QNAN_BITS
        } else {
            min1_bits(x)
        },
        !is_nan_b(x) ==> sign_b(r) == sign_b(x),
        !is_nan_b(x) ==> le_abs(r, ONE_BITS),
        !is_nan_b(x) ==> (is_zero_b(r) <==> is_zero_b(x)),
        is_zero_b(x) ==> r == x,
        is_inf_b(x) ==> r == copysign_bits(ONE_BITS, x),
{
    proof {
        lemma_constants();
        lemma_recompose(x, x);
    }
    if fnan(x) {
        QNAN_BITS
    } else {
        let m: u64 = fmin1(x);
        let r: u64 = fcopysign(m, x);
        proof {
            lemma_copysign(m, x);
            lemma_recompose(r, x);
        }
        r
    }
}

fn frecip_over(x: u64) -> (r: u64)
    ensures
        r == recip_over(x),
        !is_nan_b(r),
        !sign_b(r),
        le_abs(r, ONE_BITS),
        is_zero_b(r) <==> is_inf_b(x),
        is_nan_b(x) ==> r == ONE_BITS,
        le_abs(x, ONE_BITS) && !is_nan_b(x) ==> r == ONE_BITS,
        is_inf_b(x) ==> r == 0,
{
    proof {
        lemma_constants();
        lemma_recompose(x, x);
    }
    let m: u64 = fmax1(x);
    let r: u64 = fdiv(ONE_BITS, m);
    proof {
        lemma_recompose(r, 0u64);
    }
    r
}

/// The `(sin, cos)`-like pair for the difference `atan(x) - atan(y)`,
/// formed from the scaled parts so that it is correctly signed even when
/// `x` or `y` is infinite. Both components are NaN exactly when an input
/// is, and never exceed two in magnitude.
pub fn tansubatan(x: u64, y: u64) -> (r: (u64, u64))
    ensures
        r.0 == tansub_sin(x, y),
        r.1 == tansub_cos(x, y),
        is_nan_b(r.0) <==> (is_nan_b(x) || is_nan_b(y)),
        is_nan_b(r.1) <==> (is_nan_b(x) || is_nan_b(y)),
        !is_nan_b(r.0) ==> le_abs(r.0, TWO_BITS),
        !is_nan_b(r.1) ==> le_abs(r.1, TWO_BITS),
        is_zero_b(y) && !is_nan_b(x) && !is_zero_b(x) && !is_inf_b(x) ==> r.0 == unit_part(x)
            && !sign_b(r.1) && !is_nan_b(r.1) && !is_zero_b(r.1) && le_abs(r.1, ONE_BITS),
        is_zero_b(y) && !is_nan_b(x) && !is_zero_b(x) && le_abs(x, ONE_BITS) ==> r.0 == x && r.1
            == ONE_BITS,
        is_zero_b(y) && is_inf_b(x) ==> r.0 == copysign_bits(ONE_BITS, x) && r.1 == 0,
        is_zero_b(x) && is_zero_b(y) ==> is_zero_b(r.0) && r.1 == ONE_BITS,
        y == x && !is_nan_b(x) ==> is_zero_b(r.0) && !is_nan_b(r.0) && !sign_b(r.1)
            && !is_nan_b(r.1) && !is_zero_b(r.1),
{
    proof {
        lemma_constants();
        lemma_neg(ONE_BITS);
        lemma_recompose(x, y);
        lemma_recompose(y, x);
        lemma_copysign(min1_bits(x), x);
        lemma_recompose(unit_part(x), x);
        lemma_recompose(unit_part(x), ONE_BITS);
        lemma_recompose(unit_part(x), NEG_ONE_BITS);
    }
    let xs: u64 = funit(x);
    let xc: u64 = frecip_over(x);
    let ys: u64 = funit(y);
    let yc: u64 = frecip_over(y);
    let m1: u64 = fmul(xs, yc);
    let m2: u64 = fmul(xc, ys);
    let m3: u64 = fmul(xs, ys);
    let m4: u64 = fmul(xc, yc);
    let n2: u64 = fneg(m2);
    proof {
        lemma_neg(m2);
        lemma_recompose(m3, 0u64);
        lemma_recompose(m4, 0u64);
    }
    let s: u64 = fadd(m1, n2);
    let c: u64 = fadd(m3, m4);
    proof {
        lemma_recompose(c, 0u64);
    }
    (s, c)
}

/// The `(sin, cos)`-like pair for the sum `atan(x) + atan(y)`: the
/// difference pair with the second tangent negated.
pub fn tanaddatan(x: u64, y: u64) -> (r: (u64, u64))
    ensures
        r.0 == tansub_sin(x, neg_bits(y)),
        r.1 == tansub_cos(x, neg_bits(y)),
        is_nan_b(r.0) <==> (is_nan_b(x) || is_nan_b(y)),
        is_nan_b(r.1) <==> (is_nan_b(x) || is_nan_b(y)),
        !is_nan_b(r.0) ==> le_abs(r.0, TWO_BITS),
        !is_nan_b(r.1) ==> le_abs(r.1, TWO_BITS),
        is_zero_b(y) && !is_nan_b(x) && !is_zero_b(x) && !is_inf_b(x) ==> r.0 == unit_part(x)
            && !sign_b(r.1) && !is_nan_b(r.1) && !is_zero_b(r.1) && le_abs(r.1, ONE_BITS),
        is_zero_b(y) && !is_nan_b(x) && !is_zero_b(x) && le_abs(x, ONE_BITS) ==> r.0 == x && r.1
            == ONE_BITS,
        is_zero_b(y) && is_inf_b(x) ==> r.0 == copysign_bits(ONE_BITS, x) && r.1 == 0,
        is_zero_b(x) && is_zero_b(y) ==> is_zero_b(r.0) && r.1 == ONE_BITS,
        y == neg_bits(x) && !is_nan_b(x) ==> is_zero_b(r.0) && !is_nan_b(r.0) && !sign_b(r.1)
            && !is_nan_b(r.1) && !is_zero_b(r.1),
{
    proof {
        lemma_neg(y);
        lemma_neg(x);
    }
    tansubatan(x, fneg(y))
}

/// Cosine of `atan2(s, c)`.
pub fn cosatan2(s: u64, c: u64) -> (r: u64)
    ensures
        r == cosatan2_spec(s, c),
        is_nan_b(r) <==> (is_nan_b(s) || is_nan_b(c)),
        !is_nan_b(r) ==> sign_b(r) == sign_b(c),
        !is_nan_b(r) ==> le_abs(r, ONE_BITS),
        is_zero_b(s) && !is_nan_b(c) && !is_zero_b(c) ==> r == copysign_bits(ONE_BITS, c),
        is_inf_b(s) && !is_nan_b(c) && !is_inf_b(c) ==> is_zero_b(r),
        !is_nan_b(s) && !is_zero_b(s) && is_zero_b(c) ==> is_zero_b(r),
        is_inf_b(c) && !is_nan_b(s) && !is_inf_b(s) ==> r == copysign_bits(ONE_BITS, c),
        !is_nan_b(s) && !is_nan_b(c) && abs_b(s) == abs_b(c) ==> r == copysign_bits(
            FRAC_1_SQRT_2_BITS,
            c,
        ),
        !is_nan_b(s) && !is_nan_b(c) && abs_b(s) <= abs_b(c) ==> le_abs(HALF_BITS, r),
{
    proof {
        lemma_constants();
        lemma_recompose(s, c);
        lemma_recompose(c, s);
    }
    if fgt_abs(s, c) {
        let q: u64 = fdiv(c, s);
        let num: u64 = fcopysign(q, c);
        let den: u64 = hypot_b(ONE_BITS, q);
        let r: u64 = fdiv(num, den);
        proof {
            lemma_copysign(q, c);
            lemma_recompose(num, 0u64);
            lemma_recompose(num, c);
            lemma_recompose(r, 0u64);
        }
        r
    } else if fgt_abs(c, s) {
        let q: u64 = fdiv(s, c);
        let den: u64 = hypot_b(ONE_BITS, q);
        let w: u64 = fdiv(ONE_BITS, den);
        let r: u64 = fcopysign(w, c);
        proof {
            lemma_copysign(w, c);
            lemma_recompose(r, ONE_BITS);
        }
        r
    } else if fnan(s) {
        proof {
            lemma_copysign(s, c);
        }
        fcopysign(s, c)
    } else if fnan(c) {
        c
    } else {
        proof {
            lemma_copysign(FRAC_1_SQRT_2_BITS, c);
        }
        fcopysign(FRAC_1_SQRT_2_BITS, c)
    }
}

/// Sine of `atan2(s, c)`: the cosine of the swapped pair, carrying the
/// sign of `s`.
pub fn sinatan2(s: u64, c: u64) -> (r: u64)
    ensures
        r == copysign_bits(cosatan2_spec(c, s), s),
        is_nan_b(r) <==> (is_nan_b(s) || is_nan_b(c)),
        !is_nan_b(r) ==> sign_b(r) == sign_b(s),
        !is_nan_b(r) ==> le_abs(r, ONE_BITS),
        is_zero_b(s) && c == ONE_BITS ==> r == s,
        is_inf_b(s) && c == ONE_BITS ==> r == copysign_bits(ONE_BITS, s),
        is_zero_b(c) && !is_nan_b(s) && !is_zero_b(s) ==> r == copysign_bits(ONE_BITS, s),
        is_inf_b(c) && !is_nan_b(s) && !is_inf_b(s) ==> is_zero_b(r),
        !is_nan_b(c) && !is_zero_b(c) && is_zero_b(s) ==> is_zero_b(r),
        is_inf_b(s) && !is_nan_b(c) && !is_inf_b(c) ==> r == copysign_bits(ONE_BITS, s),
        !is_nan_b(s) && !is_nan_b(c) && abs_b(s) == abs_b(c) ==> r == copysign_bits(
            FRAC_1_SQRT_2_BITS,
            s,
        ),
        !is_nan_b(s) && !is_nan_b(c) && abs_b(c) <= abs_b(s) ==> le_abs(HALF_BITS, r),
{
    proof {
        lemma_constants();
    }
    let w: u64 = cosatan2(c, s);
    let r: u64 = fcopysign(w, s);
    proof {
        lemma_copysign(w, s);
        lemma_copysign(ONE_BITS, s);
        lemma_copysign(FRAC_1_SQRT_2_BITS, s);
        lemma_recompose(r, s);
        lemma_recompose(r, copysign_bits(ONE_BITS, s));
        lemma_recompose(r, copysign_bits(FRAC_1_SQRT_2_BITS, s));
    }
    r
}

/// Sine of `atan(t)`: zero for a zero tangent, the signed unit for an
/// infinite one, NaN for NaN.
pub fn sinatan(t: u64) -> (r: u64)
    ensures
        r == copysign_bits(cosatan2_spec(ONE_BITS, t), t),
        is_nan_b(r) <==> is_nan_b(t),
        !is_nan_b(r) ==> sign_b(r) == sign_b(t),
        !is_nan_b(r) ==> le_abs(r, ONE_BITS),
        is_zero_b(t) ==> r == t,
        is_inf_b(t) ==> r == copysign_bits(ONE_BITS, t),
        !is_nan_b(t) && le_abs(ONE_BITS, t) ==> le_abs(HALF_BITS, r),
{
    proof {
        lemma_constants();
        lemma_recompose(t, t);
    }
    let r: u64 = sinatan2(t, ONE_BITS);
    proof {
        lemma_recompose(r, t);
    }
    r
}

/// Cosine of `atan(t)`: one for a zero tangent, positive zero for an
/// infinite one, NaN for NaN, always carrying a positive sign otherwise.
pub fn cosatan(t: u64) -> (r: u64)
    ensures
        r == cosatan2_spec(t, ONE_BITS),
        is_nan_b(r) <==> is_nan_b(t),
        !is_nan_b(r) ==> !sign_b(r),
        !is_nan_b(r) ==> le_abs(r, ONE_BITS),
        is_zero_b(t) ==> r == ONE_BITS,
        is_inf_b(t) ==> r == 0,
        !is_nan_b(t) && le_abs(t, ONE_BITS) ==> le_abs(HALF_BITS, r),
{
    proof {
        lemma_constants();
    }
    let r: u64 = cosatan2(t, ONE_BITS);
    proof {
        lemma_copysign(ONE_BITS, ONE_BITS);
        lemma_recompose(r, ONE_BITS);
        lemma_recompose(r, 0u64);
    }
    r
}

/// Cosine of `atan(x) - atan(y)`: the cosine of the difference pair. Used
/// by approximate equality as the cosine of the angular difference.
pub fn cossubatan(x: u64, y: u64) -> (r: u64)
    ensures
        r == cosatan2_spec(tansub_sin(x, y), tansub_cos(x, y)),
        is_nan_b(r) <==> (is_nan_b(x) || is_nan_b(y)),
{
    let sc: (u64, u64) = tansubatan(x, y);
    cosatan2(sc.0, sc.1)
}

} // verus!
