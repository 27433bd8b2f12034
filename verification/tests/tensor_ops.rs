use ma_rs::tensor::compute_strides;
use ma_rs::tensor::{DType, Tensor, TensorData, TensorError};

fn f64_tensor(values: Vec<f64>, shape: Vec<usize>) -> Tensor {
    let bits: Vec<u64> = values.into_iter().map(f64::to_bits).collect();
    Tensor::new(bits, shape, DType::F64)
}

fn i32_tensor(values: Vec<i32>, shape: Vec<usize>) -> Tensor {
    Tensor {
        data: TensorData::I32(values),
        shape,
        gradient: None,
        gradient_fn: None,
        requires_grad: false,
        strides: None,
    }
}

fn f64_data(t: &Tensor) -> Vec<f64> {
    match &t.data {
        TensorData::F64(v) => v.iter().map(|&b| f64::from_bits(b)).collect(),
        TensorData::I32(_) => panic!("expected a floating-point tensor"),
    }
}

fn i32_data(t: &Tensor) -> Vec<i32> {
    match &t.data {
        TensorData::I32(v) => v.clone(),
        TensorData::F64(_) => panic!("expected an integer tensor"),
    }
}

#[test]
fn add_zeros_ones_f64() {
    let zeros = Tensor::zeroes(vec![2, 2], DType::F64);
    let ones = Tensor::ones(vec![2, 2], DType::F64);
    let sum = zeros.add(&ones).unwrap();
    assert_eq!(f64_data(&sum), vec![1.0, 1.0, 1.0, 1.0]);
    assert_eq!(sum.shape, vec![2, 2]);
    assert!(!sum.requires_grad);
    assert!(sum.gradient_fn.is_none());
    assert!(sum.gradient.is_none());
}

#[test]
fn mul_zeros_ones_f64() {
    let zeros = Tensor::zeros(vec![2, 2], DType::F64);
    let ones = Tensor::ones(vec![2, 2], DType::F64);
    let product = ones.mul(&zeros).unwrap();
    assert_eq!(f64_data(&product), vec![0.0, 0.0, 0.0, 0.0]);
}

#[test]
fn zeroes_and_ones_i32() {
    let zeros = Tensor::zeroes(vec![2, 2], DType::I32);
    let ones = Tensor::ones(vec![2, 2], DType::I32);
    assert_eq!(i32_data(&zeros), vec![0, 0, 0, 0]);
    assert_eq!(i32_data(&ones), vec![1, 1, 1, 1]);
    assert_eq!(ones.shape, vec![2, 2]);
}

#[test]
fn zeros_matches_zeroes() {
    let a = Tensor::zeros(vec![3], DType::F64);
    let b = Tensor::zeroes(vec![3], DType::F64);
    assert_eq!(f64_data(&a), f64_data(&b));
    assert_eq!(a.shape, b.shape);
}

#[test]
fn new_wraps_values_unchecked() {
    let t = f64_tensor(vec![1.5, 7.2, 5.0, 2.6], vec![2, 2]);
    assert_eq!(f64_data(&t), vec![1.5, 7.2, 5.0, 2.6]);
    assert_eq!(t.shape, vec![2, 2]);
    assert!(!t.requires_grad);
    assert!(t.gradient.is_none());
    assert!(t.gradient_fn.is_none());
}

#[test]
fn add_commutes_f64() {
    let a = f64_tensor(vec![0.1, 2.5, -3.75], vec![3]);
    let b = f64_tensor(vec![0.2, 3.5, 1.1], vec![3]);
    let ab = a.add(&b).unwrap();
    let ba = b.add(&a).unwrap();
    assert_eq!(f64_data(&ab), f64_data(&ba));
}

#[test]
fn add_commutes_i32() {
    let a = i32_tensor(vec![5, -7], vec![2]);
    let b = i32_tensor(vec![3, 9], vec![2]);
    let ab = a.add(&b).unwrap();
    let ba = b.add(&a).unwrap();
    assert_eq!(i32_data(&ab), i32_data(&ba));
    assert_eq!(i32_data(&ab), vec![8, 2]);
}

#[test]
fn sub_then_add_recovers_f64() {
    let a = f64_tensor(vec![2.0, 3.0], vec![2]);
    let b = f64_tensor(vec![0.5, 1.25], vec![2]);
    let diff = a.sub(&b).unwrap();
    assert_eq!(f64_data(&diff), vec![1.5, 1.75]);
    let back = diff.add(&b).unwrap();
    assert_eq!(f64_data(&back), vec![2.0, 3.0]);
}

#[test]
fn sub_then_add_recovers_i32_across_overflow() {
    let a = i32_tensor(vec![i32::MIN, 3], vec![2]);
    let b = i32_tensor(vec![1, 5], vec![2]);
    let diff = a.sub(&b).unwrap();
    assert_eq!(i32_data(&diff), vec![i32::MAX, -2]);
    let back = diff.add(&b).unwrap();
    assert_eq!(i32_data(&back), vec![i32::MIN, 3]);
}

#[test]
fn int_add_wraps_on_overflow() {
    let a = i32_tensor(vec![i32::MAX], vec![1]);
    let b = i32_tensor(vec![1], vec![1]);
    let sum = a.add(&b).unwrap();
    assert_eq!(i32_data(&sum), vec![i32::MIN]);
}

#[test]
fn shape_mismatch_reported_before_type_mismatch() {
    // Same element count, different shapes, and differing dtypes:
    // every operation must still report the shape mismatch.
    let a = f64_tensor(vec![1.0, 2.0, 3.0, 4.0], vec![2, 2]);
    let b = i32_tensor(vec![1, 2, 3, 4], vec![4]);
    assert_eq!(a.add(&b).unwrap_err(), TensorError::ShapeMismatch);
    assert_eq!(a.sub(&b).unwrap_err(), TensorError::ShapeMismatch);
    assert_eq!(a.mul(&b).unwrap_err(), TensorError::ShapeMismatch);
    assert_eq!(a.div(&b).unwrap_err(), TensorError::ShapeMismatch);
}

#[test]
fn type_mismatch_with_matching_shapes() {
    let a = f64_tensor(vec![1.0, 2.0], vec![2]);
    let b = i32_tensor(vec![1, 2], vec![2]);
    assert_eq!(a.add(&b).unwrap_err(), TensorError::TypeMismatch);
    assert_eq!(a.sub(&b).unwrap_err(), TensorError::TypeMismatch);
    assert_eq!(a.mul(&b).unwrap_err(), TensorError::TypeMismatch);
    assert_eq!(a.div(&b).unwrap_err(), TensorError::TypeMismatch);
    assert_eq!(b.add(&a).unwrap_err(), TensorError::TypeMismatch);
}

#[test]
fn int_divide_by_zero_is_a_distinct_error() {
    // The integer division instruction would trap on a zero divisor,
    // so the engine reports it as its own error kind ...
    let a = i32_tensor(vec![1, 2], vec![2]);
    let b = i32_tensor(vec![1, 0], vec![2]);
    assert_eq!(a.div(&b).unwrap_err(), TensorError::DivisionByZero);
}

#[test]
fn float_divide_by_zero_yields_non_finite_values() {
    // ... while the floating-point path succeeds and propagates
    // infinities, per IEEE 754.
    let a = f64_tensor(vec![1.0, -1.0], vec![2]);
    let b = f64_tensor(vec![0.0, 0.0], vec![2]);
    let q = a.div(&b).unwrap();
    let values = f64_data(&q);
    assert_eq!(values[0], f64::INFINITY);
    assert_eq!(values[1], f64::NEG_INFINITY);
}

#[test]
fn float_division_halves() {
    let a = f64_tensor(vec![1.0, 3.0], vec![2]);
    let b = f64_tensor(vec![2.0, 2.0], vec![2]);
    let q = a.div(&b).unwrap();
    assert_eq!(f64_data(&q), vec![0.5, 1.5]);
}

#[test]
fn int_division_truncates_toward_zero() {
    let a = i32_tensor(vec![7, -7, 9], vec![3]);
    let b = i32_tensor(vec![2, 2, -4], vec![3]);
    let q = a.div(&b).unwrap();
    assert_eq!(i32_data(&q), vec![3, -3, -2]);
}

#[test]
fn int_division_min_by_minus_one_wraps() {
    let a = i32_tensor(vec![i32::MIN], vec![1]);
    let b = i32_tensor(vec![-1], vec![1]);
    let q = a.div(&b).unwrap();
    assert_eq!(i32_data(&q), vec![i32::MIN]);
}

#[test]
fn divide_shape_check_precedes_zero_divisor_check() {
    let a = i32_tensor(vec![1, 1], vec![2]);
    let b = i32_tensor(vec![0], vec![1]);
    assert_eq!(a.div(&b).unwrap_err(), TensorError::ShapeMismatch);
    let c = f64_tensor(vec![1.0], vec![1]);
    let d = i32_tensor(vec![0], vec![1]);
    assert_eq!(c.div(&d).unwrap_err(), TensorError::TypeMismatch);
}

#[test]
fn int_multiplication_elementwise() {
    let a = i32_tensor(vec![2, -3, 4], vec![3]);
    let b = i32_tensor(vec![5, 6, -7], vec![3]);
    let p = a.mul(&b).unwrap();
    assert_eq!(i32_data(&p), vec![10, -18, -28]);
}

#[test]
fn compute_strides_row_major() {
    assert_eq!(compute_strides(&vec![2, 3, 4]), vec![12, 4, 1]);
    assert_eq!(compute_strides(&vec![5]), vec![1]);
    assert_eq!(compute_strides(&vec![]), Vec::<usize>::new());
}
