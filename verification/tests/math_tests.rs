use raytracer::fixed::{fx_add, fx_div, fx_mul, fx_neg, fx_of_int, fx_sqrt, fx_sub, FX_MAX, FX_ONE};
use raytracer::rng::{lcg_next, rand01, rand_sym, seed_mix};
use raytracer::vec3::Vec3;

#[test]
fn fixed_add_sub_exact() {
    assert_eq!(fx_add(FX_ONE, FX_ONE), 2 * FX_ONE);
    assert_eq!(fx_sub(FX_ONE, 3 * FX_ONE), -2 * FX_ONE);
    assert_eq!(fx_neg(FX_ONE), -FX_ONE);
}

#[test]
fn fixed_add_saturates() {
    assert_eq!(fx_add(FX_MAX, FX_MAX), FX_MAX);
    assert_eq!(fx_sub(-FX_MAX, FX_MAX), -FX_MAX);
}

#[test]
fn fixed_mul_truncates_toward_zero() {
    // 1.5 * 1.5 == 2.25 exactly in Q16.16
    let one_and_half = FX_ONE + FX_ONE / 2;
    assert_eq!(fx_mul(one_and_half, one_and_half), 2 * FX_ONE + FX_ONE / 4);
    // (1/3-ish) * 3 truncates below one
    assert_eq!(fx_mul(21845, 3 * FX_ONE), 65535);
    assert_eq!(fx_mul(-21845, 3 * FX_ONE), -65535);
}

#[test]
fn fixed_div_exact_and_total() {
    assert_eq!(fx_div(FX_ONE, 3 * FX_ONE), 21845);
    assert_eq!(fx_div(4 * FX_ONE, 2 * FX_ONE), 2 * FX_ONE);
    assert_eq!(fx_div(-4 * FX_ONE, 2 * FX_ONE), -2 * FX_ONE);
    // division by zero is defined as zero
    assert_eq!(fx_div(FX_ONE, 0), 0);
}

#[test]
fn fixed_sqrt_exact_squares() {
    assert_eq!(fx_sqrt(4 * FX_ONE), 2 * FX_ONE);
    assert_eq!(fx_sqrt(FX_ONE), FX_ONE);
    assert_eq!(fx_sqrt(0), 0);
    assert_eq!(fx_sqrt(-FX_ONE), 0);
    // sqrt is monotone around non-squares: r*r <= x < (r+1)*(r+1) on the
    // wide integer
    let r = fx_sqrt(2 * FX_ONE);
    let wide = 2i128 * 65536 * 65536;
    assert!((r as i128) * (r as i128) <= wide);
    assert!(((r + 1) as i128) * ((r + 1) as i128) > wide);
}

#[test]
fn fixed_of_int_scales() {
    assert_eq!(fx_of_int(3), 3 * FX_ONE);
    assert_eq!(fx_of_int(-2), -2 * FX_ONE);
}

#[test]
fn vector_algebra_exact() {
    let a = Vec3::new(FX_ONE, 0, 0);
    let b = Vec3::new(0, FX_ONE, 0);
    let c = a.cross(&b);
    assert_eq!((c.x, c.y, c.z), (0, 0, FX_ONE));
    assert_eq!(a.dot(&b), 0);
    assert_eq!(a.dot(&a), FX_ONE);
    let s = a.add(&b).scale(2 * FX_ONE);
    assert_eq!((s.x, s.y, s.z), (2 * FX_ONE, 2 * FX_ONE, 0));
    let n = Vec3::new(3 * FX_ONE, 4 * FX_ONE, 0).norm();
    assert_eq!(n, 5 * FX_ONE);
    let u = Vec3::new(0, 0, -7 * FX_ONE).normalize();
    assert_eq!((u.x, u.y, u.z), (0, 0, -FX_ONE));
}

#[test]
fn rng_is_deterministic() {
    let a = lcg_next(12345);
    let b = lcg_next(12345);
    assert_eq!(a, b);
    assert_ne!(lcg_next(a), a);
    assert_eq!(seed_mix(7, 9), seed_mix(7, 9));
    let s = rand_sym(a);
    assert!((-65536..65536).contains(&s));
    let u = rand01(a);
    assert!((0..65536).contains(&u));
}
