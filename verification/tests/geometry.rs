//! Fixed-point scalar and vector arithmetic.

use raytracer::fixed::{isqrt_u64, Fx, FX_MAX, SCALE};
use raytracer::rng::Rng;
use raytracer::vector::Vector3;

fn fx(raw: i64) -> Fx {
    Fx { raw }
}

fn v3(x: i64, y: i64, z: i64) -> Vector3 {
    Vector3 { x: fx(x), y: fx(y), z: fx(z) }
}

#[test]
fn scalar_construction() {
    assert_eq!(Fx::zero().raw, 0);
    assert_eq!(Fx::one().raw, SCALE);
    assert_eq!(Fx::from_int(5).raw, 5 * SCALE);
    assert_eq!(Fx::from_int(-3).raw, -3 * SCALE);
    assert_eq!(Fx::from_raw(1234).raw, 1234);
}

#[test]
fn scalar_arithmetic() {
    let a = Fx::from_int(3);
    let b = Fx::from_int(2);
    assert_eq!(a.add(b).raw, 5 * SCALE);
    assert_eq!(a.sub(b).raw, SCALE);
    assert_eq!(a.neg().raw, -3 * SCALE);
    assert_eq!(a.mul(b).raw, 6 * SCALE);
    assert_eq!(a.div(b).raw, SCALE + SCALE / 2);
    // Truncation is toward zero on either sign.
    assert_eq!(Fx::from_int(-3).div(b).raw, -(SCALE + SCALE / 2));
    assert_eq!(fx(-1).div(b).raw, 0);
}

#[test]
fn scalar_saturation() {
    let big = Fx::from_raw(FX_MAX);
    assert_eq!(big.add(big).raw, FX_MAX);
    assert_eq!(big.neg().add(big.neg()).raw, -FX_MAX);
    assert_eq!(big.mul(big).raw, FX_MAX);
}

#[test]
fn integer_square_root() {
    assert_eq!(isqrt_u64(0), 0);
    assert_eq!(isqrt_u64(1), 1);
    assert_eq!(isqrt_u64(15), 3);
    assert_eq!(isqrt_u64(16), 4);
    assert_eq!(isqrt_u64(1 << 62), 1 << 31);
    assert_eq!(isqrt_u64((1 << 62) - 1), (1 << 31) - 1);
}

#[test]
fn scalar_square_root() {
    assert_eq!(Fx::from_int(4).sqrt_fx().raw, 2 * SCALE);
    assert_eq!(Fx::from_int(2).sqrt_fx().raw, 92681);
    assert_eq!(Fx::zero().sqrt_fx().raw, 0);
}

#[test]
fn vector_basic_ops() {
    let a = v3(SCALE, 2 * SCALE, 3 * SCALE);
    let b = v3(4 * SCALE, 5 * SCALE, 6 * SCALE);
    assert_eq!(a.add(b), v3(5 * SCALE, 7 * SCALE, 9 * SCALE));
    assert_eq!(b.sub(a), v3(3 * SCALE, 3 * SCALE, 3 * SCALE));
    assert_eq!(a.neg(), v3(-SCALE, -2 * SCALE, -3 * SCALE));
    assert_eq!(a.scale(fx(2 * SCALE)), v3(2 * SCALE, 4 * SCALE, 6 * SCALE));
    assert_eq!(a.dot(b).raw, 32 * SCALE);
    assert_eq!(
        a.cross(b),
        v3(-3 * SCALE, 6 * SCALE, -3 * SCALE)
    );
}

#[test]
fn vector_length_and_normalize() {
    let v = v3(3 * SCALE, 4 * SCALE, 0);
    assert_eq!(v.len().raw, 5 * SCALE);
    let n = v.normalize();
    assert_eq!(n, v3(39321, 52428, 0));
}

#[test]
fn reflection_of_diagonal_across_up_normal() {
    // Reflecting normalize((1,-1,0)) off (0,1,0) gives normalize((1,1,0))
    // exactly: the specular bounce involves no randomness.
    let v = v3(SCALE, -SCALE, 0).normalize();
    assert_eq!(v, v3(46341, -46341, 0));
    let n = v3(0, SCALE, 0);
    let reflected = v.reflect(n);
    let expected = v3(SCALE, SCALE, 0).normalize();
    assert_eq!(reflected, expected);
    assert_eq!(reflected, v3(46341, 46341, 0));
}

#[test]
fn refraction_falls_back_to_reflection() {
    // A steeply grazing direction against index ratio 1.5 makes the
    // discriminant negative; the result equals the pure reflection.
    let v = v3(SCALE, -SCALE, 0).normalize();
    let n = v3(0, SCALE, 0);
    let eta = fx(98304);
    assert_eq!(v.refract(n, eta), v.reflect(n));
    assert_eq!(v.refract(n, eta), v3(46341, 46341, 0));
}

#[test]
fn refraction_straight_through() {
    // Normal incidence with ratio 1 passes straight through.
    let v = v3(0, -SCALE, 0);
    let n = v3(0, SCALE, 0);
    let out = v.refract(n, fx(SCALE));
    assert_eq!(out, v3(0, -SCALE, 0));
}

#[test]
fn hemisphere_sample_faces_the_normal() {
    let mut rng = Rng::from_seed(7);
    let n = v3(0, SCALE, 0);
    for _ in 0..100 {
        let d = n.random_hemisphere(&mut rng);
        assert!(d.dot(n).raw >= 0);
    }
}

#[test]
fn random_draws_stay_below_bound() {
    let mut rng = Rng::from_seed(1);
    for _ in 0..1000 {
        assert!(rng.below(7) < 7);
        let u = rng.unit_fraction();
        assert!(0 <= u.raw && u.raw < SCALE);
        let s = rng.symmetric_unit();
        assert!(-SCALE <= s.raw && s.raw < SCALE);
        let j = rng.jitter();
        assert!(-SCALE / 2 <= j.raw && j.raw < SCALE / 2);
    }
}
