//! A NaN in either field must survive every operator, and approximate
//! equality must reject NaN even against itself.

use phasor::Phasor;

fn nan_cases() -> Vec<Phasor> {
    vec![
        Phasor { mag: f64::NAN.to_bits(), tan: 1.5f64.to_bits() },
        Phasor { mag: 2.5f64.to_bits(), tan: f64::NAN.to_bits() },
        Phasor { mag: f64::NAN.to_bits(), tan: f64::NAN.to_bits() },
        Phasor { mag: f64::NAN.to_bits(), tan: f64::INFINITY.to_bits() },
        Phasor { mag: 0f64.to_bits(), tan: f64::NAN.to_bits() },
    ]
}

fn well_formed() -> Phasor {
    Phasor::rect(3f64.to_bits(), 4f64.to_bits())
}

#[test]
fn nan_survives_unary_operators() {
    for p in nan_cases() {
        assert!(p.is_nan());
        assert!(p.neg().is_nan());
        assert!(p.conj().is_nan());
        assert!(p.recip().is_nan());
        assert!(f64::from_bits(p.norm()).is_nan());
        assert!(f64::from_bits(p.real_part()).is_nan());
        assert!(f64::from_bits(p.imag()).is_nan());
        let atan = f64::from_bits(p.tan).atan().to_bits();
        assert!(f64::from_bits(p.angle(atan)).is_nan());
    }
}

#[test]
fn nan_survives_binary_operators() {
    let q = well_formed();
    for p in nan_cases() {
        assert!(p.add(&q).is_nan());
        assert!(q.add(&p).is_nan());
        assert!(p.sub(&q).is_nan());
        assert!(q.sub(&p).is_nan());
        assert!(p.mul(&q).is_nan());
        assert!(q.mul(&p).is_nan());
        assert!(p.div(&q).is_nan());
        assert!(q.div(&p).is_nan());
    }
}

#[test]
fn nan_survives_transcendental_assembly() {
    for p in nan_cases() {
        let re = f64::from_bits(p.real_part());
        let im = f64::from_bits(p.imag());
        let ln_norm = f64::from_bits(p.norm()).ln();
        let atan = f64::from_bits(p.tan).atan();
        assert!(p.exp(re.exp().to_bits(), im.tan().to_bits(), im.cos().to_bits()).is_nan());
        assert!(p.ln(ln_norm.to_bits(), atan.to_bits()).is_nan());
        assert!(p.log(ln_norm.to_bits(), atan.to_bits(), 10f64.ln().to_bits()).is_nan());
        assert!(
            p.sinh(
                re.sinh().to_bits(),
                im.sin().to_bits(),
                im.cos().to_bits(),
                im.tan().to_bits(),
                re.tanh().to_bits(),
            ).is_nan()
        );
        assert!(
            p.cosh(
                re.sinh().to_bits(),
                im.cos().to_bits(),
                im.tan().to_bits(),
                re.tanh().to_bits(),
            ).is_nan()
        );
    }
}

#[test]
fn nan_is_unequal_even_to_itself() {
    for p in nan_cases() {
        assert!(!p.abs_diff_eq(&p, f64::INFINITY.to_bits()));
        assert!(!p.relative_eq(&p, f64::INFINITY.to_bits(), f64::INFINITY.to_bits()));
        assert!(!p.ulps_eq(&p, f64::INFINITY.to_bits(), u32::MAX));
    }
}

#[test]
fn well_formed_values_equal_themselves() {
    let p = well_formed();
    assert!(p.abs_diff_eq(&p, Phasor::default_epsilon()));
    assert!(p.relative_eq(&p, Phasor::default_epsilon(), Phasor::default_max_relative()));
    assert!(p.ulps_eq(&p, Phasor::default_epsilon(), Phasor::default_max_ulps()));
}
