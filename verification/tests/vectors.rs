// The vector surface, exercised over every supported width of both scalar
// kinds with randomized inputs: construction round-trips, lane access,
// equality, cloning, scalar broadcast, interleave and fused multiply-add.

use llml_simd::packed::Packed;
use llml_simd::single::f32x2;
use rand::random;

const WIDTHS: [usize; 8] = [2, 4, 6, 8, 10, 12, 14, 16];

fn rand_f32(n: usize) -> Vec<f32> {
    (0..n).map(|_| random::<f32>()).collect()
}

fn rand_f64(n: usize) -> Vec<f64> {
    (0..n).map(|_| random::<f64>()).collect()
}

fn bits32(xs: &[f32]) -> Vec<u32> {
    xs.iter().map(|x| x.to_bits()).collect()
}

fn bits64(xs: &[f64]) -> Vec<u64> {
    xs.iter().map(|x| x.to_bits()).collect()
}

fn floats32(bs: &[u32]) -> Vec<f32> {
    bs.iter().map(|b| f32::from_bits(*b)).collect()
}

fn floats64(bs: &[u64]) -> Vec<f64> {
    bs.iter().map(|b| f64::from_bits(*b)).collect()
}

#[test]
fn index() {
    for &w in WIDTHS.iter() {
        let array = rand_f32(w);
        let simd = Packed::<u32>::from_vec(bits32(&array));
        for i in 0..w {
            assert_eq!(array[i].to_bits(), simd.get(i));
        }

        let array = rand_f64(w);
        let simd = Packed::<u64>::from_vec(bits64(&array));
        for i in 0..w {
            assert_eq!(array[i].to_bits(), simd.get(i));
        }
    }
}

#[test]
fn eq() {
    for &w in WIDTHS.iter() {
        let first_array = rand_f32(w);
        let alpha = Packed::<u32>::from_vec(bits32(&first_array));
        let beta = alpha.clone();

        let mut last_array: Vec<f32>;
        loop {
            last_array = rand_f32(w);
            if !last_array.iter().enumerate().all(|(i, x)| *x == first_array[i]) {
                break;
            }
        }
        let gamma = Packed::<u32>::from_vec(bits32(&last_array));

        assert!(alpha.equals(&beta));
        assert!(!alpha.equals(&gamma));

        let first_array = rand_f64(w);
        let alpha = Packed::<u64>::from_vec(bits64(&first_array));
        let beta = alpha.clone();

        let mut last_array: Vec<f64>;
        loop {
            last_array = rand_f64(w);
            if !last_array.iter().enumerate().all(|(i, x)| *x == first_array[i]) {
                break;
            }
        }
        let gamma = Packed::<u64>::from_vec(bits64(&last_array));

        assert!(alpha.equals(&beta));
        assert!(!alpha.equals(&gamma));
    }
}

#[test]
fn clone() {
    for &w in WIDTHS.iter() {
        let array = rand_f32(w);
        let alpha = Packed::<u32>::from_vec(bits32(&array));
        let beta = alpha.clone();
        assert!(alpha.equals(&beta));

        let array = rand_f64(w);
        let alpha = Packed::<u64>::from_vec(bits64(&array));
        let beta = alpha.clone();
        assert!(alpha.equals(&beta));
    }
}

#[test]
fn into() {
    for &w in WIDTHS.iter() {
        let array = rand_f32(w);
        let into = Packed::<u32>::from_vec(bits32(&array));
        let from = into.to_vec();
        assert_eq!(bits32(&array), from);

        let array = rand_f64(w);
        let into = Packed::<u64>::from_vec(bits64(&array));
        let from = into.to_vec();
        assert_eq!(bits64(&array), from);
    }
}

#[test]
fn from() {
    for &w in WIDTHS.iter() {
        let scalar: f32 = random();
        let vec = Packed::<u32>::filled_with(scalar.to_bits(), w);
        for i in 0..w {
            assert_eq!(f32::from_bits(vec.get(i)), scalar);
        }

        let scalar: f64 = random();
        let vec = Packed::<u64>::filled_with(scalar.to_bits(), w);
        for i in 0..w {
            assert_eq!(f64::from_bits(vec.get(i)), scalar);
        }
    }
}

#[test]
fn zip() {
    for &w in WIDTHS.iter() {
        let alpha_array = rand_f32(w);
        let alpha = Packed::<u32>::from_vec(bits32(&alpha_array));
        let beta_array = rand_f32(w);
        let beta = Packed::<u32>::from_vec(bits32(&beta_array));

        let mut result = vec![0f32; w];
        for i in 0..(w / 2) {
            result[2 * i] = alpha_array[i];
            result[2 * i + 1] = beta_array[i];
        }
        assert_eq!(alpha.zip(&beta).to_vec(), bits32(&result));

        let alpha_array = rand_f64(w);
        let alpha = Packed::<u64>::from_vec(bits64(&alpha_array));
        let beta_array = rand_f64(w);
        let beta = Packed::<u64>::from_vec(bits64(&beta_array));

        let mut result = vec![0f64; w];
        for i in 0..(w / 2) {
            result[2 * i] = alpha_array[i];
            result[2 * i + 1] = beta_array[i];
        }
        assert_eq!(alpha.zip(&beta).to_vec(), bits64(&result));
    }
}

#[test]
fn fma() {
    for &w in WIDTHS.iter() {
        let alpha = rand_f32(w);
        let beta = rand_f32(w);
        let gamma = rand_f32(w);

        let naive: Vec<f32> = (0..w).map(|i| alpha[i].mul_add(beta[i], gamma[i])).collect();

        let a = Packed::<u32>::from_vec(bits32(&alpha));
        let b = Packed::<u32>::from_vec(bits32(&beta));
        let c = Packed::<u32>::from_vec(bits32(&gamma));
        let simd = floats32(&a.mul_add(&b, &c).to_vec());

        for i in 0..w {
            assert!((simd[i] - naive[i]).abs() <= f32::EPSILON * 2., "fma");
        }

        let alpha = rand_f64(w);
        let beta = rand_f64(w);
        let gamma = rand_f64(w);

        let naive: Vec<f64> = (0..w).map(|i| alpha[i].mul_add(beta[i], gamma[i])).collect();

        let a = Packed::<u64>::from_vec(bits64(&alpha));
        let b = Packed::<u64>::from_vec(bits64(&beta));
        let c = Packed::<u64>::from_vec(bits64(&gamma));
        let simd = floats64(&a.mul_add(&b, &c).to_vec());

        for i in 0..w {
            assert!((simd[i] - naive[i]).abs() <= f64::EPSILON * 2., "fma");
        }
    }
}

#[test]
fn mul_add() {
    let array = [core::f32::consts::FRAC_1_PI, 0.0012];
    let simd = f32x2::new(bits32(&array));
    let simd = simd.mul_add(&simd, &simd);

    array
        .into_iter()
        .map(|x| x.mul_add(x, x))
        .enumerate()
        .for_each(|(i, x)| {
            assert_eq!(x, f32::from_bits(simd.get(i)));
        });
}

#[test]
fn packed_assign_ops() {
    let a = rand_f32(4);
    let b = rand_f32(4);
    let mut v = Packed::<u32>::from_vec(bits32(&a));
    let w = Packed::<u32>::from_vec(bits32(&b));

    v.add_assign(&w);
    assert!(v.equals(&Packed::<u32>::from_vec(bits32(&a)).add(&w)));
    v.sub_assign(&w);
    v.mul_assign(&w);
    v.div_assign(&w);
    let mut by_value = Packed::<u32>::from_vec(bits32(&a));
    by_value = by_value.add(&w).sub(&w).mul(&w).div(&w);
    assert!(v.equals(&by_value));
}
