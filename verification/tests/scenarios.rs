// Concrete scenarios and numeric checks: fixed vectors with known reductions,
// padding poisoning, interleave of known lanes, elementwise agreement with
// scalar IEEE arithmetic, NaN handling of minNum/maxNum, and the square-root
// approximation against its documented error bound.

use llml_simd::backend::{current_impl, LlmlImpl};
use llml_simd::double::{f64x2, f64x3};
use llml_simd::packed::Packed;
use llml_simd::simd::Simdt;
use llml_simd::single::{f32x2, f32x3, f32x6};

fn bits32(xs: &[f32]) -> Vec<u32> {
    xs.iter().map(|x| x.to_bits()).collect()
}

fn bits64(xs: &[f64]) -> Vec<u64> {
    xs.iter().map(|x| x.to_bits()).collect()
}

#[test]
fn eight_lane_reductions() {
    let v = Packed::<u32>::from_vec(bits32(&[1., 2., 3., 4., 5., 6., 7., 8.]));
    assert_eq!(f32::from_bits(v.sum()), 36.0);
    assert_eq!(f32::from_bits(v.prod()), 40320.0);
    assert_eq!(f32::from_bits(v.min()), 1.0);
    assert_eq!(f32::from_bits(v.max()), 8.0);

    let v = Packed::<u64>::from_vec(bits64(&[1., 2., 3., 4., 5., 6., 7., 8.]));
    assert_eq!(f64::from_bits(v.sum()), 36.0);
    assert_eq!(f64::from_bits(v.prod()), 40320.0);
}

#[test]
fn three_lane_reductions_ignore_padding() {
    // The same three lanes behind every possible kind of poison in the
    // physical fourth register lane: the reductions must never see it.
    let lanes = [-1f32, 2., -3.];
    let poisons = [f32::NAN.to_bits(), f32::INFINITY.to_bits(), f32::NEG_INFINITY.to_bits(), 0u32];
    for &poison in poisons.iter() {
        let v = f32x3::new_padded(bits32(&lanes), poison);
        assert_eq!(f32::from_bits(v.min()), -3.0);
        assert_eq!(f32::from_bits(v.max()), 2.0);
        assert_eq!(f32::from_bits(v.sum()), -2.0);
        assert_eq!(f32::from_bits(v.prod()), 6.0);
    }

    let lanes = [-1f64, 2., -3.];
    let poisons = [f64::NAN.to_bits(), f64::INFINITY.to_bits(), 0u64];
    for &poison in poisons.iter() {
        let v = f64x3::new_padded(bits64(&lanes), poison);
        assert_eq!(f64::from_bits(v.min()), -3.0);
        assert_eq!(f64::from_bits(v.max()), 2.0);
        assert_eq!(f64::from_bits(v.sum()), -2.0);
        assert_eq!(f64::from_bits(v.prod()), 6.0);
    }
}

#[test]
fn zip_two_lanes() {
    // Interleave keeps its operands' width: the first half of each operand's
    // lanes alternate into the result.
    let a = f32x2::new(bits32(&[1., 2.]));
    let b = f32x2::new(bits32(&[3., 4.]));
    assert_eq!(a.zip(&b).to_vec(), bits32(&[1., 3.]));
    let a = Packed::<u32>::from_vec(bits32(&[1., 2., 3., 4.]));
    let b = Packed::<u32>::from_vec(bits32(&[5., 6., 7., 8.]));
    assert_eq!(a.zip(&b).to_vec(), bits32(&[1., 5., 2., 6.]));
}

#[test]
fn elementwise_matches_scalar_ieee() {
    // The vector operations must agree, bit for bit, with scalar IEEE-754
    // arithmetic on every lane — here across a leaf width, the padded width
    // and a composite width.
    let xs = [1.5f32, -2.25, 0.1, 3.9e37, -1.1e-39, 7.0];
    let ys = [0.3f32, 4.75, -0.7, 2.5e3, 8.25, -0.0];
    for w in [2usize, 3, 6] {
        let a = Packed::<u32>::from_vec(bits32(&xs[..w]));
        let b = Packed::<u32>::from_vec(bits32(&ys[..w]));
        for i in 0..w {
            assert_eq!(f32::from_bits(a.add(&b).get(i)), xs[i] + ys[i]);
            assert_eq!(f32::from_bits(a.sub(&b).get(i)), xs[i] - ys[i]);
            assert_eq!(f32::from_bits(a.mul(&b).get(i)), xs[i] * ys[i]);
            assert_eq!(f32::from_bits(a.div(&b).get(i)).to_bits(), (xs[i] / ys[i]).to_bits());
            assert_eq!(f32::from_bits(a.neg().get(i)), -xs[i]);
            assert_eq!(f32::from_bits(a.abs().get(i)), xs[i].abs());
        }
    }

    let xs = [1.5f64, -2.25, 0.1, 3.9e300, -1.1e-308, 7.0];
    let ys = [0.3f64, 4.75, -0.7, 2.5e3, 8.25, -0.0];
    for w in [2usize, 3, 6] {
        let a = Packed::<u64>::from_vec(bits64(&xs[..w]));
        let b = Packed::<u64>::from_vec(bits64(&ys[..w]));
        for i in 0..w {
            assert_eq!(f64::from_bits(a.add(&b).get(i)), xs[i] + ys[i]);
            assert_eq!(f64::from_bits(a.sub(&b).get(i)), xs[i] - ys[i]);
            assert_eq!(f64::from_bits(a.mul(&b).get(i)), xs[i] * ys[i]);
            assert_eq!(f64::from_bits(a.div(&b).get(i)).to_bits(), (xs[i] / ys[i]).to_bits());
        }
    }
}

#[test]
fn reductions_match_folds() {
    // Sum and product within a reassociation tolerance that scales with the
    // width; minimum and maximum exactly.
    for w in [2usize, 3, 4, 6, 8, 10, 12, 14, 16] {
        let xs: Vec<f32> = (0..w).map(|i| 0.1 + 0.7 * (i as f32)).collect();
        let v = Packed::<u32>::from_vec(bits32(&xs));

        let sum: f32 = xs.iter().copied().reduce(|x, y| x + y).unwrap();
        let prod: f32 = xs.iter().copied().reduce(|x, y| x * y).unwrap();
        let tol = f32::EPSILON * (w as f32);
        assert!((f32::from_bits(v.sum()) - sum).abs() <= tol * sum.abs().max(1.0));
        assert!((f32::from_bits(v.prod()) - prod).abs() <= tol * prod.abs().max(1.0));

        let min = xs.iter().copied().reduce(f32::min).unwrap();
        let max = xs.iter().copied().reduce(f32::max).unwrap();
        assert_eq!(f32::from_bits(v.min()), min);
        assert_eq!(f32::from_bits(v.max()), max);
    }
}

#[test]
fn min_max_ignore_single_nan() {
    let a = f32x2::new(vec![f32::NAN.to_bits(), 2.0f32.to_bits()]);
    let b = f32x2::new(vec![1.0f32.to_bits(), f32::NAN.to_bits()]);
    // minNum/maxNum: one NaN operand yields the other operand.
    let lo = a.vmin(&b);
    let hi = a.vmax(&b);
    assert_eq!(f32::from_bits(lo.get(0)), 1.0);
    assert_eq!(f32::from_bits(lo.get(1)), 2.0);
    assert_eq!(f32::from_bits(hi.get(0)), 1.0);
    assert_eq!(f32::from_bits(hi.get(1)), 2.0);
    // Both operands NaN: the result is NaN.
    let c = f32x2::new(vec![f32::NAN.to_bits(), 5.0f32.to_bits()]);
    assert!(f32::from_bits(a.vmin(&c).get(0)).is_nan());
    // A NaN lane drops out of the horizontal reductions too.
    assert_eq!(f32::from_bits(a.min()), 2.0);
    assert_eq!(f32::from_bits(a.max()), 2.0);
}

#[test]
fn equality_is_bitwise() {
    // Equality holds exactly when every lane's bit pattern matches; a vector
    // always equals itself, NaN lanes included.
    let a = f32x2::new(vec![f32::NAN.to_bits(), 0.0f32.to_bits()]);
    assert!(a.equals(&a));
    let plus = f32x2::new(bits32(&[0.0, 1.0]));
    let minus = f32x2::new(bits32(&[-0.0, 1.0]));
    assert!(!plus.equals(&minus));
    assert!(plus.equals(&plus.clone()));
}

#[test]
fn broadcast_both_orders() {
    let xs = [4.0f32, -8.0, 1.5, 0.25];
    let v = Packed::<u32>::from_vec(bits32(&xs));
    let s = 2.0f32;
    for i in 0..4 {
        assert_eq!(f32::from_bits(v.add_scalar(s.to_bits()).get(i)), xs[i] + s);
        assert_eq!(f32::from_bits(v.sub_scalar(s.to_bits()).get(i)), xs[i] - s);
        assert_eq!(f32::from_bits(v.mul_scalar(s.to_bits()).get(i)), xs[i] * s);
        assert_eq!(f32::from_bits(v.div_scalar(s.to_bits()).get(i)), xs[i] / s);
        assert_eq!(f32::from_bits(v.scalar_sub(s.to_bits()).get(i)), s - xs[i]);
        assert_eq!(f32::from_bits(v.scalar_div(s.to_bits()).get(i)), s / xs[i]);
    }
}

#[test]
fn six_lane_composite() {
    let xs = [9.0f32, 1.0, 7.5, -3.25, 0.5, 4.0];
    let v = f32x6::new(bits32(&xs));
    assert_eq!(f32::from_bits(v.min()), -3.25);
    assert_eq!(f32::from_bits(v.max()), 9.0);
    // Sum combines the 4-lane part's sum with the 2-lane part's sum.
    let expected = (((9.0f32 + 1.0) + 7.5) + -3.25) + (0.5 + 4.0);
    assert_eq!(f32::from_bits(v.sum()), expected);
    assert_eq!(v.to_vec(), bits32(&xs));
}

#[test]
fn fourteen_lane_combination_tree() {
    // Width 14 is assembled as 8 + 6, the 8 as 4 + 4 and the 6 as 4 + 2; the
    // sum combines the parts' sums in exactly that grouping.
    let xs: Vec<f32> = (0..14).map(|i| 0.1 + 0.7 * (i as f32)).collect();
    let v = Packed::<u32>::from_vec(bits32(&xs));

    let fold = |r: &[f32]| r.iter().copied().reduce(|x, y| x + y).unwrap();
    let sum8 = fold(&xs[0..4]) + fold(&xs[4..8]);
    let sum6 = fold(&xs[8..12]) + fold(&xs[12..14]);
    assert_eq!(f32::from_bits(v.sum()), sum8 + sum6);

    let prod8 = xs[0..4].iter().product::<f32>()
        * xs[4..8].iter().copied().reduce(|x, y| x * y).unwrap();
    let prod6 = xs[8..12].iter().copied().reduce(|x, y| x * y).unwrap() * (xs[12] * xs[13]);
    assert_eq!(f32::from_bits(v.prod()), prod8 * prod6);
}

#[test]
fn inequality_is_negated_equality() {
    let a = f32x2::new(vec![f32::NAN.to_bits(), 1.0f32.to_bits()]);
    let b = f32x2::new(bits32(&[2.0, 1.0]));
    assert!(!a.v.ne(&a.v));
    assert!(a.v.ne(&b.v));
}

#[test]
fn reductions_through_simdt() {
    let v = Packed::<u32>::from_vec(bits32(&[2.0, 3.0]));
    assert_eq!(f32::from_bits(Simdt::sum(&v)), 5.0);
    assert_eq!(f32::from_bits(Simdt::prod(&v)), 6.0);
    assert_eq!(f32::from_bits(Simdt::min(&v)), 2.0);
    assert_eq!(f32::from_bits(Simdt::max(&v)), 3.0);

    let d = f64x2::new(bits64(&[2.0, 3.0]));
    assert_eq!(f64::from_bits(d.sum()), 5.0);
    assert_eq!(f64::from_bits(d.prod()), 6.0);
}

#[test]
fn backend_descriptor() {
    let tier = current_impl();
    assert!(matches!(tier, LlmlImpl::NAIVE));
    assert!(!tier.is_64bit());
    assert!(!tier.is_128bit());
    assert!(!tier.is_256bit());
    assert!(LlmlImpl::NEON.is_64bit());
    assert!(LlmlImpl::AVX.is_256bit());
    assert!(LlmlImpl::SSE.is_128bit());
}
