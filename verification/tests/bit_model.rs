//! The bit-level model of binary64 against the hardware's own behavior.

use phasor::arith::hypot_b;
use phasor::bits::{fabs, fcopysign, feq, fle, fmax1, fmin1, fneg, fsignum};

fn values() -> Vec<f64> {
    vec![
        0.0, -0.0, 1.0, -1.0, 0.5, -2.5, 1e-315, -1e-315, 1e308, -1e308, f64::INFINITY,
        f64::NEG_INFINITY, f64::NAN,
    ]
}

#[test]
fn negation_matches_hardware() {
    for x in values() {
        assert_eq!(fneg(x.to_bits()), (-x).to_bits());
    }
}

#[test]
fn absolute_value_matches_hardware() {
    for x in values() {
        assert_eq!(fabs(x.to_bits()), x.abs().to_bits());
    }
}

#[test]
fn copysign_matches_hardware() {
    for x in values() {
        for s in values() {
            assert_eq!(fcopysign(x.to_bits(), s.to_bits()), x.copysign(s).to_bits());
        }
    }
}

#[test]
fn signum_matches_hardware_up_to_nan() {
    for x in values() {
        let got = f64::from_bits(fsignum(x.to_bits()));
        let want = x.signum();
        if want.is_nan() {
            assert!(got.is_nan());
        } else {
            assert_eq!(got.to_bits(), want.to_bits());
        }
    }
}

#[test]
fn unit_clamps_match_hardware() {
    for x in values() {
        assert_eq!(fmin1(x.to_bits()), x.abs().min(1.0).to_bits(), "min for {x}");
        assert_eq!(fmax1(x.to_bits()), x.abs().max(1.0).to_bits(), "max for {x}");
    }
}

#[test]
fn float_order_matches_hardware() {
    for x in values() {
        for y in values() {
            assert_eq!(fle(x.to_bits(), y.to_bits()), x <= y, "{x} <= {y}");
            assert_eq!(feq(x.to_bits(), y.to_bits()), x == y, "{x} == {y}");
        }
    }
}

#[test]
fn hypot_edge_cases_match_hardware() {
    for x in values() {
        for y in values() {
            let got = f64::from_bits(hypot_b(x.to_bits(), y.to_bits()));
            let want = x.hypot(y);
            if want.is_nan() {
                assert!(got.is_nan(), "hypot({x},{y})");
            } else if x == 0.0 || y == 0.0 || want.is_infinite() {
                assert_eq!(got.to_bits(), want.to_bits(), "hypot({x},{y})");
            } else {
                let diff = (got - want).abs();
                assert!(diff <= 1e-9 * want.abs(), "hypot({x},{y}): {got} vs {want}");
            }
        }
    }
}

#[test]
fn hypot_of_pythagorean_legs_is_exact() {
    assert_eq!(f64::from_bits(hypot_b(3f64.to_bits(), 4f64.to_bits())), 5.0);
    assert_eq!(f64::from_bits(hypot_b(5f64.to_bits(), (-12f64).to_bits())), 13.0);
    assert_eq!(f64::from_bits(hypot_b(8f64.to_bits(), 15f64.to_bits())), 17.0);
}
