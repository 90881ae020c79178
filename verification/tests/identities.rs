//! Involutions, identity elements and the norm/angle algebra laws.

use phasor::Phasor;

fn mk2(re: f64, im: f64) -> Phasor {
    Phasor::rect(re.to_bits(), im.to_bits())
}

fn near(a: f64, b: f64) -> bool {
    if a == b {
        return true;
    }
    let diff = (a - b).abs();
    diff <= 1e-9 * a.abs().max(b.abs()) || diff <= 1e-12
}

fn one() -> Phasor {
    Phasor { mag: 1.0f64.to_bits(), tan: 0.0f64.to_bits() }
}

#[test]
fn negation_is_an_involution() {
    let p = mk2(3.0, 4.0);
    assert_eq!(p.neg().neg(), p);
    let q = Phasor { mag: f64::NEG_INFINITY.to_bits(), tan: (-0.0f64).to_bits() };
    assert_eq!(q.neg().neg(), q);
}

#[test]
fn conjugation_is_an_involution() {
    let p = mk2(3.0, 4.0);
    assert_eq!(p.conj().conj(), p);
    let q = Phasor { mag: (-2.0f64).to_bits(), tan: f64::INFINITY.to_bits() };
    assert_eq!(q.conj().conj(), q);
}

#[test]
fn reciprocal_is_nearly_an_involution() {
    let p = Phasor { mag: 3.7f64.to_bits(), tan: (4.0f64 / 3.0).to_bits() };
    let r = p.recip().recip();
    assert_eq!(r.tan, p.tan);
    assert!(near(f64::from_bits(r.mag), f64::from_bits(p.mag)));
}

#[test]
fn adding_zero_is_the_identity() {
    let zero = Phasor { mag: 0.0f64.to_bits(), tan: 0.0f64.to_bits() };
    let real = Phasor { mag: 5.0f64.to_bits(), tan: 0.0f64.to_bits() };
    let sum = real.add(&zero);
    assert_eq!(sum.mag, real.mag);
    assert!(sum.is_real());
    let p = mk2(3.0, 4.0);
    let s = p.add(&zero);
    assert!(near(f64::from_bits(s.real_part()), 3.0));
    assert!(near(f64::from_bits(s.imag()), 4.0));
}

#[test]
fn adding_a_real_infinity_wins() {
    let p = mk2(3.0, 4.0);
    let inf = Phasor { mag: f64::INFINITY.to_bits(), tan: 0.0f64.to_bits() };
    let s = p.add(&inf);
    assert!(s.is_infinite());
    assert_eq!(s.mag, inf.mag);
    let s2 = inf.add(&p);
    assert!(s2.is_infinite());
}

#[test]
fn multiplying_by_one_is_the_identity() {
    let p = Phasor { mag: 7.25f64.to_bits(), tan: 0.75f64.to_bits() };
    let r = p.mul(&one());
    assert_eq!(r.mag, p.mag);
    assert_eq!(r.tan, p.tan);
    let q = Phasor { mag: (-3.0f64).to_bits(), tan: f64::INFINITY.to_bits() };
    let r2 = q.mul(&one());
    assert_eq!(r2.mag, q.mag);
    assert_eq!(r2.tan, q.tan);
}

#[test]
fn multiplying_by_the_reciprocal_gives_one() {
    let p = mk2(3.0, 4.0);
    let r = p.mul(&p.recip());
    assert!(near(f64::from_bits(r.real_part()), 1.0));
    assert!(near(f64::from_bits(r.imag()), 0.0));
}

#[test]
fn norm_is_multiplicative() {
    let p = mk2(3.0, 4.0);
    let q = mk2(-1.0, 2.0);
    let np = f64::from_bits(p.norm());
    let nq = f64::from_bits(q.norm());
    assert!(near(f64::from_bits(p.mul(&q).norm()), np * nq));
    assert!(near(f64::from_bits(p.div(&q).norm()), np / nq));
}

#[test]
fn angles_add_under_multiplication() {
    let p = mk2(3.0, 4.0);
    let q = mk2(-1.0, 2.0);
    let ang = |v: Phasor| f64::from_bits(v.angle(f64::from_bits(v.tan).atan().to_bits()));
    let two_pi = 2.0 * std::f64::consts::PI;
    let wrap = |x: f64| (x % two_pi + two_pi) % two_pi;
    assert!(near(wrap(ang(p.mul(&q))), wrap(ang(p) + ang(q))));
    assert!(near(wrap(ang(p.div(&q))), wrap(ang(p) - ang(q))));
}

#[test]
fn finite_opposites_cancel_to_the_perpendicular() {
    let p = Phasor { mag: 3.0f64.to_bits(), tan: 0.5f64.to_bits() };
    let r = p.add(&p.neg());
    assert_eq!(r.mag, 0.0f64.to_bits());
    assert_eq!(f64::from_bits(r.tan), -2.0);
    let s = p.sub(&p);
    assert_eq!(s.mag, 0.0f64.to_bits());
    assert_eq!(f64::from_bits(s.tan), -2.0);
}

#[test]
fn an_infinite_operand_absorbs_any_finite_one() {
    let p = mk2(3.0, 4.0);
    let q = Phasor { mag: f64::INFINITY.to_bits(), tan: 2.5f64.to_bits() };
    assert!(p.add(&q).is_infinite());
    assert!(q.add(&p).is_infinite());
    assert!(p.sub(&q).is_infinite());
    let n = Phasor { mag: f64::NEG_INFINITY.to_bits(), tan: (-0.25f64).to_bits() };
    assert!(p.add(&n).is_infinite());
    assert!(n.add(&p).is_infinite());
}

#[test]
fn zero_times_infinity_is_nan() {
    let zero = Phasor { mag: 0.0f64.to_bits(), tan: 0.5f64.to_bits() };
    let inf = Phasor { mag: f64::INFINITY.to_bits(), tan: 1.0f64.to_bits() };
    assert!(zero.mul(&inf).is_nan());
    assert!(inf.mul(&zero).is_nan());
    assert!(zero.div(&zero).is_nan());
    assert!(inf.div(&inf).is_nan());
}
