//! The three tolerance policies on nearby, scaled and rotated values.

use phasor::Phasor;

fn p_of(mag: f64, tan: f64) -> Phasor {
    Phasor { mag: mag.to_bits(), tan: tan.to_bits() }
}

#[test]
fn absolute_tolerance_separates_scaled_magnitudes() {
    let mag = 2.0f64;
    let p = p_of(mag * 1.0000000001, 0.5);
    let q = p_of(mag / 1.0000000001, 0.5);
    assert!(p.abs_diff_eq(&q, (mag * 1e-9).to_bits()));
    assert!(!p.abs_diff_eq(&q, (mag * 1e-11).to_bits()));
}

#[test]
fn relative_tolerance_separates_scaled_magnitudes() {
    let mag = 3e300f64;
    let p = p_of(mag * 1.0000000001, 0.5);
    let q = p_of(mag / 1.0000000001, 0.5);
    assert!(p.relative_eq(&q, 0f64.to_bits(), 1e-9f64.to_bits()));
    assert!(!p.relative_eq(&q, 0f64.to_bits(), 1e-11f64.to_bits()));
}

#[test]
fn ulps_tolerance_counts_representable_steps() {
    let mag = 2.0f64;
    let next = f64::from_bits(mag.to_bits() + 3);
    let p = p_of(mag, 0.5);
    let q = p_of(next, 0.5);
    assert!(p.ulps_eq(&q, 0f64.to_bits(), 4));
    assert!(!p.ulps_eq(&q, 0f64.to_bits(), 2));
}

#[test]
fn a_slight_rotation_is_seen_by_the_angular_factor() {
    let p = p_of(1.0, 1.0);
    let q = p_of(1.0, 1.0 + 1e-6);
    assert!(!p.abs_diff_eq(&q, 1e-9f64.to_bits()));
    assert!(p.abs_diff_eq(&q, 1e-5f64.to_bits()));
}

#[test]
fn opposite_signs_never_compare_equal() {
    let p = p_of(1.5, 0.25);
    let q = p.neg();
    assert!(!p.abs_diff_eq(&q, 1e-9f64.to_bits()));
    assert!(!p.relative_eq(&q, 1e-9f64.to_bits(), 1e-9f64.to_bits()));
    assert!(!p.ulps_eq(&q, 1e-9f64.to_bits(), 4));
}

#[test]
fn equality_respects_the_imaginary_value_not_the_encoding() {
    let eps = phasor::Phasor::default_epsilon();
    let p = p_of(3.0, f64::INFINITY);
    let same = p_of(-3.0, f64::NEG_INFINITY);
    assert!(p.ulps_eq(&same, eps, 4));
    assert!(p.relative_eq(&same, eps, eps));
    assert!(p.abs_diff_eq(&same, eps));
    let reflected = p_of(3.0, f64::NEG_INFINITY);
    assert!(!p.ulps_eq(&reflected, eps, 4));
    assert!(!p.relative_eq(&reflected, eps, eps));
    let negated = p_of(-3.0, f64::INFINITY);
    assert!(!p.ulps_eq(&negated, eps, 4));
    assert!(!p.abs_diff_eq(&negated, eps));
}

#[test]
fn equal_infinite_values_compare_equal_relative_and_ulps() {
    let p = p_of(f64::INFINITY, 0.5);
    assert!(p.relative_eq(&p, 0f64.to_bits(), 0f64.to_bits()));
    assert!(p.ulps_eq(&p, 0f64.to_bits(), 0));
    assert!(!p.abs_diff_eq(&p, 1e9f64.to_bits()));
}
