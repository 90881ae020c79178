//! Concrete end-to-end scenarios over the public phasor algebra.

use phasor::Phasor;

fn mk(re: f64, im: f64) -> Phasor {
    Phasor::rect(re.to_bits(), im.to_bits())
}

fn close(a: f64, b: f64) -> bool {
    if a == b {
        return true;
    }
    (a - b).abs() <= 1e-9 * a.abs().max(b.abs()).max(1e-9)
}

fn phasor_close(p: Phasor, q: Phasor) -> bool {
    let pn = f64::from_bits(p.norm());
    let qn = f64::from_bits(q.norm());
    let pa = f64::from_bits(p.angle(f64::from_bits(p.tan).atan().to_bits()));
    let qa = f64::from_bits(q.angle(f64::from_bits(q.tan).atan().to_bits()));
    close(pn, qn) && close(pa, qa)
}

#[test]
fn three_four_five_norm_and_angle() {
    let p = mk(3.0, 4.0);
    assert_eq!(f64::from_bits(p.norm()), 5.0);
    let a = p.angle(f64::from_bits(p.tan).atan().to_bits());
    assert!(close(f64::from_bits(a), 4f64.atan2(3f64)));
}

#[test]
fn sum_of_rectangular_points() {
    let p = mk(3.0, 4.0);
    let q = mk(0.0, 4.0);
    assert!(phasor_close(p.add(&q), mk(3.0, 8.0)));
}

#[test]
fn product_rotates_and_scales() {
    let p = mk(3.0, 4.0);
    let q = mk(0.0, 4.0);
    assert!(phasor_close(p.mul(&q), mk(-16.0, 12.0)));
}

#[test]
fn reciprocal_of_three_four() {
    let p = mk(3.0, 4.0);
    assert!(phasor_close(p.recip(), mk(3.0 / 25.0, -4.0 / 25.0)));
}

#[test]
fn conjugate_reflects() {
    let p = mk(3.0, 4.0);
    assert!(phasor_close(p.conj(), mk(3.0, -4.0)));
}

#[test]
fn conjugate_product_is_real() {
    let p = mk(3.0, 4.0);
    let r = p.mul(&p.conj());
    assert!(r.is_real());
    assert_eq!(f64::from_bits(r.tan), 0.0);
    assert!(phasor_close(r, mk(25.0, 0.0)));
}

#[test]
fn opposite_infinities_sum_to_nan() {
    let p = Phasor { mag: f64::INFINITY.to_bits(), tan: (4.0f64 / 3.0).to_bits() };
    let q = p.neg();
    assert!(p.add(&q).is_nan());
}

#[test]
fn division_undoes_multiplication() {
    let p = mk(3.0, 4.0);
    let q = mk(-1.0, 2.0);
    assert!(phasor_close(p.mul(&q).div(&q), p));
}

#[test]
fn subtraction_of_rectangular_points() {
    let p = mk(3.0, 4.0);
    let q = mk(0.0, 4.0);
    assert!(phasor_close(p.sub(&q), mk(3.0, 0.0)));
}
