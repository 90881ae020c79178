//! Rectangular round trips: construction followed by the accessors.

use phasor::Phasor;

fn near3(a: f64, b: f64) -> bool {
    if a == b {
        return true;
    }
    let diff = (a - b).abs();
    diff <= 1e-9 * a.abs().max(b.abs()) || diff <= 1e-12
}

#[test]
fn rect_round_trips_through_real_and_imag() {
    let cases: Vec<(f64, f64)> = vec![
        (3.0, 4.0),
        (-3.0, 4.0),
        (3.0, -4.0),
        (-3.0, -4.0),
        (1.0, 1.0),
        (0.125, 0.25),
        (1e100, 3e100),
        (1e-100, 2e-100),
        (5.0, 12.0),
    ];
    for (re, im) in cases {
        let p = Phasor::rect(re.to_bits(), im.to_bits());
        assert!(near3(f64::from_bits(p.real_part()), re), "real part of {re}+{im}i");
        assert!(near3(f64::from_bits(p.imag()), im), "imag part of {re}+{im}i");
    }
}

#[test]
fn rect_on_the_real_axis_is_exact() {
    for re in [3.0f64, -3.0, 0.5, -0.5, 1e300, -1e-300, f64::INFINITY] {
        let p = Phasor::rect(re.to_bits(), 0f64.to_bits());
        assert!(p.is_real());
        assert_eq!(p.mag, re.to_bits());
        assert_eq!(f64::from_bits(p.real_part()), re);
    }
}

#[test]
fn rect_of_two_infinities_is_nan() {
    let p = Phasor::rect(f64::INFINITY.to_bits(), f64::NEG_INFINITY.to_bits());
    assert!(p.is_nan());
    assert!(f64::from_bits(p.mag).is_nan());
    assert_eq!(f64::from_bits(p.tan), -1.0);
    let q = Phasor::rect(f64::NEG_INFINITY.to_bits(), f64::NEG_INFINITY.to_bits());
    assert!(q.is_nan());
    assert!(f64::from_bits(q.mag).is_nan());
    assert_eq!(f64::from_bits(q.tan), 1.0);
}

#[test]
fn the_angle_never_exceeds_pi_in_magnitude() {
    let pi = std::f64::consts::PI;
    let cases: Vec<(f64, f64)> = vec![
        (3.0, 0.5),
        (-3.0, 0.5),
        (-3.0, -1e9),
        (3.0, f64::INFINITY),
        (-0.5, f64::NEG_INFINITY),
        (-1e300, 0.0),
        (-1e300, -0.0),
    ];
    for (mag, tan) in cases {
        let p = Phasor { mag: mag.to_bits(), tan: tan.to_bits() };
        let a = f64::from_bits(p.angle(tan.atan().to_bits()));
        assert!(a.abs() <= pi, "angle of ({mag}, {tan}) is {a}");
    }
}

#[test]
fn rect_keeps_the_sign_of_a_zero_imaginary_part() {
    let p = Phasor::rect((-3.0f64).to_bits(), 0f64.to_bits());
    assert!(p.is_real());
    assert_eq!(f64::from_bits(p.mag), -3.0);
    assert_eq!(f64::from_bits(p.real_part()), -3.0);
    assert_eq!(f64::from_bits(p.imag()), 0.0);
    assert!(f64::from_bits(p.imag()).is_sign_positive());
}

#[test]
fn norm_and_angle_recover_polar_coordinates() {
    let p = Phasor::rect(5.0f64.to_bits(), 12.0f64.to_bits());
    assert_eq!(f64::from_bits(p.norm()), 13.0);
    let ang = f64::from_bits(p.angle(f64::from_bits(p.tan).atan().to_bits()));
    assert!(near3(ang, 12f64.atan2(5f64)));
}

#[test]
fn angle_reflects_into_the_left_half_plane() {
    let p = Phasor::rect((-3.0f64).to_bits(), 4.0f64.to_bits());
    let ang = f64::from_bits(p.angle(f64::from_bits(p.tan).atan().to_bits()));
    assert!(near3(ang, 4f64.atan2(-3f64)));
    assert!(ang.abs() <= std::f64::consts::PI);
    let q = Phasor::rect((-3.0f64).to_bits(), (-4.0f64).to_bits());
    let ang2 = f64::from_bits(q.angle(f64::from_bits(q.tan).atan().to_bits()));
    assert!(near3(ang2, (-4f64).atan2(-3f64)));
}
