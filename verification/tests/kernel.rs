//! The angle-free trigonometric kernel against the platform's libm.

use phasor::trig::{cosatan, cosatan2, cossubatan, sinatan, sinatan2, tanaddatan, tansubatan};

fn ulps_close(a: f64, b: f64, tol: f64) -> bool {
    if a == b {
        return true;
    }
    let diff = (a - b).abs();
    diff <= tol * a.abs().max(b.abs()) || diff <= 1e-12
}

fn samples() -> Vec<f64> {
    vec![
        0.0, -0.0, 1.0, -1.0, 0.5, -0.5, 4.0 / 3.0, -4.0 / 3.0, 1e10, -1e10, 1e-10, 1e308,
        -1e308, 1e-308, f64::INFINITY, f64::NEG_INFINITY,
    ]
}

#[test]
fn sinatan_matches_sine_of_arctangent() {
    for x in samples() {
        let got = f64::from_bits(sinatan(x.to_bits()));
        let want = x.atan().sin();
        assert!(ulps_close(got, want, 1e-12), "sinatan({x}): {got} vs {want}");
    }
}

#[test]
fn cosatan_matches_cosine_of_arctangent() {
    for x in samples() {
        let got = f64::from_bits(cosatan(x.to_bits()));
        let want = x.atan().cos();
        assert!(ulps_close(got, want, 1e-12), "cosatan({x}): {got} vs {want}");
    }
}

#[test]
fn sinatan2_matches_sine_of_atan2() {
    for x in samples() {
        for y in samples() {
            if x == 0.0 && y == 0.0 {
                continue;
            }
            let got = f64::from_bits(sinatan2(x.to_bits(), y.to_bits()));
            let want = x.atan2(y).sin();
            assert!(ulps_close(got, want, 1e-9), "sinatan2({x},{y}): {got} vs {want}");
        }
    }
}

#[test]
fn cosatan2_matches_cosine_of_atan2() {
    for x in samples() {
        for y in samples() {
            if x == 0.0 && y == 0.0 {
                continue;
            }
            let got = f64::from_bits(cosatan2(x.to_bits(), y.to_bits()));
            let want = x.atan2(y).cos();
            assert!(ulps_close(got, want, 1e-9), "cosatan2({x},{y}): {got} vs {want}");
        }
    }
}

#[test]
fn the_origin_gets_the_diagonal_by_convention() {
    let h = std::f64::consts::FRAC_1_SQRT_2;
    assert_eq!(f64::from_bits(cosatan2(0f64.to_bits(), 0f64.to_bits())), h);
    assert_eq!(f64::from_bits(cosatan2(0f64.to_bits(), (-0f64).to_bits())), -h);
    assert_eq!(f64::from_bits(sinatan2((-0f64).to_bits(), 0f64.to_bits())), -h);
}

#[test]
fn sinatan2_takes_the_sign_of_its_first_argument() {
    for x in samples() {
        for y in samples() {
            let r = f64::from_bits(sinatan2(x.to_bits(), y.to_bits()));
            assert_eq!(1f64.copysign(r), 1f64.copysign(x));
        }
    }
}

#[test]
fn cosatan2_takes_the_sign_of_its_second_argument() {
    for x in samples() {
        for y in samples() {
            let r = f64::from_bits(cosatan2(x.to_bits(), y.to_bits()));
            assert_eq!(1f64.copysign(r), 1f64.copysign(y));
        }
    }
}

#[test]
fn tanaddatan_matches_the_angle_sum() {
    for x in samples() {
        for y in samples() {
            if x.is_infinite() && y.is_infinite() {
                continue;
            }
            let (s, c) = tanaddatan(x.to_bits(), y.to_bits());
            let got = f64::from_bits(s).atan2(f64::from_bits(c));
            let want = x.atan() + y.atan();
            assert!(ulps_close(got, want, 1e-9), "tanaddatan({x},{y}): {got} vs {want}");
        }
    }
}

#[test]
fn tansubatan_matches_the_angle_difference() {
    for x in samples() {
        for y in samples() {
            if x.is_infinite() && y.is_infinite() {
                continue;
            }
            let (s, c) = tansubatan(x.to_bits(), y.to_bits());
            let got = f64::from_bits(s).atan2(f64::from_bits(c));
            let want = x.atan() - y.atan();
            assert!(ulps_close(got, want, 1e-9), "tansubatan({x},{y}): {got} vs {want}");
        }
    }
}

#[test]
fn cossubatan_matches_the_cosine_of_the_difference() {
    for x in samples() {
        for y in samples() {
            let got = f64::from_bits(cossubatan(x.to_bits(), y.to_bits()));
            let want = (x.atan() - y.atan()).cos();
            assert!(ulps_close(got, want, 1e-9), "cossubatan({x},{y}): {got} vs {want}");
        }
    }
}

#[test]
fn kernel_propagates_nan() {
    let n = f64::NAN.to_bits();
    let one = 1f64.to_bits();
    assert!(f64::from_bits(sinatan(n)).is_nan());
    assert!(f64::from_bits(cosatan(n)).is_nan());
    assert!(f64::from_bits(sinatan2(n, one)).is_nan());
    assert!(f64::from_bits(cosatan2(one, n)).is_nan());
    let (s, c) = tanaddatan(n, one);
    assert!(f64::from_bits(s).is_nan() && f64::from_bits(c).is_nan());
    let (s2, c2) = tansubatan(one, n);
    assert!(f64::from_bits(s2).is_nan() && f64::from_bits(c2).is_nan());
}
