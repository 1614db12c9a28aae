// The scalar layer: the named IEEE operations against std's floating point,
// the width conversions, the bit-trick square root against its documented
// error bound, and the plain order helpers.

use llml_simd::floatext::{f32_sqrt, f64_sqrt, sqrt_recip_f32, sqrt_recip_f64, NoStdMath};
use llml_simd::ordx::Ordx;
use llml_simd::scalar32::{f32_abs, f32_add, f32_div, f32_le, f32_max, f32_min, f32_mul, f32_neg, f32_sub};
use llml_simd::scalar64::{f32_to_f64, f64_add, f64_div, f64_mul, f64_mul_add, f64_sub, f64_to_f32};

#[test]
fn arithmetic_matches_std() {
    let pairs = [
        (1.5f32, 0.3f32),
        (-2.25, 4.75),
        (0.1, -0.7),
        (3.9e37, 2.5e3),
        (1.0e-40, 8.25),
        (f32::INFINITY, 1.0),
    ];
    for &(x, y) in pairs.iter() {
        assert_eq!(f32_add(x.to_bits(), y.to_bits()), (x + y).to_bits());
        assert_eq!(f32_sub(x.to_bits(), y.to_bits()), (x - y).to_bits());
        assert_eq!(f32_mul(x.to_bits(), y.to_bits()), (x * y).to_bits());
        assert_eq!(f32_div(x.to_bits(), y.to_bits()), (x / y).to_bits());
    }
    let pairs = [(1.5f64, 0.3f64), (-2.25, 4.75), (0.1, -0.7), (3.9e300, 2.5e3)];
    for &(x, y) in pairs.iter() {
        assert_eq!(f64_add(x.to_bits(), y.to_bits()), (x + y).to_bits());
        assert_eq!(f64_sub(x.to_bits(), y.to_bits()), (x - y).to_bits());
        assert_eq!(f64_mul(x.to_bits(), y.to_bits()), (x * y).to_bits());
        assert_eq!(f64_div(x.to_bits(), y.to_bits()), (x / y).to_bits());
    }
    assert_eq!(
        f64_mul_add(0.1f64.to_bits(), 0.2f64.to_bits(), 0.3f64.to_bits()),
        0.1f64.mul_add(0.2, 0.3).to_bits()
    );
}

#[test]
fn sign_operations_are_bit_exact() {
    for x in [0.0f32, -0.0, 1.5, -1.5, f32::INFINITY, f32::NEG_INFINITY] {
        assert_eq!(f32_neg(x.to_bits()), (-x).to_bits());
        assert_eq!(f32_abs(x.to_bits()), x.abs().to_bits());
    }
    assert_eq!(NoStdMath::abs((-3.5f32).to_bits()), 3.5f32.to_bits());
    assert_eq!(NoStdMath::abs((-3.5f64).to_bits()), 3.5f64.to_bits());
}

#[test]
fn ordering_matches_ieee() {
    let cases = [
        (1.0f32, 2.0f32, true),
        (2.0, 1.0, false),
        (-1.0, 1.0, true),
        (-2.0, -3.0, false),
        (0.0, -0.0, true),
        (-0.0, 0.0, true),
        (f32::NEG_INFINITY, -1e38, true),
        (1e38, f32::INFINITY, true),
        (5.0, 5.0, true),
        (-5.0, -5.0, true),
    ];
    for &(x, y, expect) in cases.iter() {
        assert_eq!(f32_le(x.to_bits(), y.to_bits()), x <= y, "{x} <= {y}");
        assert_eq!(expect, x <= y);
    }
    // minNum / maxNum against std (std min/max have the same NaN rule).
    for &(x, y, _) in cases.iter() {
        assert_eq!(f32::from_bits(f32_min(x.to_bits(), y.to_bits())), x.min(y));
        assert_eq!(f32::from_bits(f32_max(x.to_bits(), y.to_bits())), x.max(y));
    }
}

#[test]
fn width_conversions() {
    assert_eq!(f32_to_f64(1.5f32.to_bits()), (1.5f64).to_bits());
    assert_eq!(f32_to_f64((-0.1f32).to_bits()), ((-0.1f32) as f64).to_bits());
    assert_eq!(f64_to_f32(1.5f64.to_bits()), (1.5f32).to_bits());
    assert_eq!(f64_to_f32(0.1f64.to_bits()), (0.1f64 as f32).to_bits());
    assert_eq!(f64_to_f32(1e300f64.to_bits()), f32::INFINITY.to_bits());
}

#[test]
fn sqrt_within_documented_bound() {
    // Relative error below 1e-5 in single precision, 1e-10 in double, for
    // positive normal inputs.
    for x in [0.25f32, 0.5, 1.0, 2.0, 3.0, 4.0, 100.0, 1e-3, 12345.678, 3.9e37] {
        let got = f32::from_bits(f32_sqrt(x.to_bits()));
        let want = x.sqrt();
        assert!((got - want).abs() / want < 1e-5, "sqrt {x}: {got} vs {want}");
        let rs = f32::from_bits(sqrt_recip_f32(x.to_bits()));
        assert!((rs - 1.0 / want).abs() / (1.0 / want) < 1e-5);
    }
    for x in [0.25f64, 0.5, 1.0, 2.0, 3.0, 4.0, 100.0, 1e-3, 12345.678, 3.1e38] {
        let got = f64::from_bits(f64_sqrt(x.to_bits()));
        let want = x.sqrt();
        assert!((got - want).abs() / want < 1e-10, "sqrt {x}: {got} vs {want}");
        let rs = f64::from_bits(sqrt_recip_f64(x.to_bits()));
        assert!((rs - 1.0 / want).abs() / (1.0 / want) < 1e-10);
    }
    // The vector square root is the same approximation, lane by lane.
    let v = llml_simd::single::f32x2::new(vec![4.0f32.to_bits(), 9.0f32.to_bits()]);
    let s = v.sqrt();
    assert!((f32::from_bits(s.get(0)) - 2.0).abs() < 1e-4);
    assert!((f32::from_bits(s.get(1)) - 3.0).abs() < 1e-4);
}

#[test]
fn sqrt_bound_random_sweep() {
    // The documented error bound, over random positive inputs spread across
    // many binades.
    for _ in 0..2000 {
        let m: f32 = rand::random::<f32>() + 0.5;
        let e: i32 = (rand::random::<u8>() % 60) as i32 - 30;
        let x = m * 2f32.powi(e);
        let got = f32::from_bits(f32_sqrt(x.to_bits()));
        let want = x.sqrt();
        assert!((got - want).abs() / want < 1e-5, "sqrt {x}: {got} vs {want}");
    }
    for _ in 0..2000 {
        let m: f64 = rand::random::<f64>() + 0.5;
        let e: i32 = (rand::random::<u8>() % 120) as i32 - 60;
        let x = m * 2f64.powi(e);
        let got = f64::from_bits(f64_sqrt(x.to_bits()));
        let want = x.sqrt();
        assert!((got - want).abs() / want < 1e-10, "sqrt {x}: {got} vs {want}");
    }
}

#[test]
fn ordx_selects_by_order() {
    assert_eq!(Ordx::min(3u32, 5u32), 3);
    assert_eq!(Ordx::max(3u32, 5u32), 5);
    assert_eq!(Ordx::min(7u64, 7u64), 7);
    assert_eq!(Ordx::max(2usize, 9usize), 9);
}
