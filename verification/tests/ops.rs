use jhtensor::tensor::{
    elementwise_in_range, matmul_in_range, sum_axis_in_range, Activation, CPUBackend, DType, ElemOp, Shape, Tensor,
    TensorData, TensorError,
};

type T = Tensor<CPUBackend>;

fn i32s(values: &[i32]) -> TensorData {
    TensorData::Int32(values.to_vec())
}

fn i16s(values: &[i16]) -> TensorData {
    TensorData::Int16(values.to_vec())
}

fn f32s(values: &[f32]) -> TensorData {
    TensorData::Float32(values.iter().map(|x| x.to_bits()).collect())
}

fn as_i32(d: TensorData) -> Vec<i32> {
    match d {
        TensorData::Int32(v) => v,
        other => panic!("expected Int32 data, got {:?}", other),
    }
}

fn as_i16(d: TensorData) -> Vec<i16> {
    match d {
        TensorData::Int16(v) => v,
        other => panic!("expected Int16 data, got {:?}", other),
    }
}

fn as_f32(d: TensorData) -> Vec<f32> {
    match d {
        TensorData::Float32(v) => v.into_iter().map(f32::from_bits).collect(),
        other => panic!("expected Float32 data, got {:?}", other),
    }
}

#[test]
fn add_inplace_i32_and_i16() {
    let a = T::new(&i32s(&[1, 2, 3, 4, 5]), &[5]).unwrap();
    let b = T::new(&i32s(&[1, 2, 3, 4, 5]), &[5]).unwrap();
    let mut result = T::new(&i32s(&[0; 5]), &[5]).unwrap();
    a.add_inplace(&b, &mut result).unwrap();
    assert_eq!(as_i32(result.to_vec(DType::Int32).unwrap()), vec![2, 4, 6, 8, 10]);

    let a = T::new(&i16s(&[1, 2, 3, 4, 5]), &[5]).unwrap();
    let b = T::new(&i16s(&[1, 2, 3, 4, 5]), &[5]).unwrap();
    let mut result = T::new(&i16s(&[0; 5]), &[5]).unwrap();
    a.add_inplace(&b, &mut result).unwrap();
    assert_eq!(as_i16(result.to_vec(DType::Int16).unwrap()), vec![2, 4, 6, 8, 10]);
}

#[test]
fn sub_small_and_large() {
    let a = T::new(&i32s(&[5, 6, 7, 8, 9]), &[5]).unwrap();
    let b = T::new(&i32s(&[1, 2, 3, 4, 5]), &[5]).unwrap();
    assert_eq!(as_i32(a.sub(&b).unwrap().to_vec(DType::Int32).unwrap()), vec![4; 5]);

    let a = T::new(&i16s(&[10; 2024]), &[2024]).unwrap();
    let b = T::new(&i16s(&[3; 2024]), &[2024]).unwrap();
    assert_eq!(as_i16(a.sub(&b).unwrap().to_vec(DType::Int16).unwrap()), vec![7; 2024]);
}

#[test]
fn mul_elementwise() {
    let a = T::new(&i32s(&[1, 2, 3, 4, 5]), &[5]).unwrap();
    let b = T::new(&i32s(&[2, 3, 4, 5, 6]), &[5]).unwrap();
    assert_eq!(as_i32(a.mul(&b).unwrap().to_vec(DType::Int32).unwrap()), vec![2, 6, 12, 20, 30]);
    let mut dest = T::new(&i32s(&[9; 5]), &[5]).unwrap();
    a.mul_inplace(&b, &mut dest).unwrap();
    assert_eq!(as_i32(dest.to_vec(DType::Int32).unwrap()), vec![2, 6, 12, 20, 30]);
}

#[test]
fn integer_arithmetic_reaches_the_range_edges() {
    let a = T::new(&i16s(&[30000, -30000, 1]), &[3]).unwrap();
    let b = T::new(&i16s(&[2767, -2768, 2]), &[3]).unwrap();
    assert_eq!(as_i16(a.add(&b).unwrap().to_vec(DType::Int16).unwrap()), vec![i16::MAX, i16::MIN, 3]);
    let c = T::new(&i32s(&[i32::MAX - 1, i32::MIN + 1]), &[2]).unwrap();
    let d = T::new(&i32s(&[1, 1]), &[2]).unwrap();
    assert_eq!(as_i32(c.add(&d).unwrap().to_vec(DType::Int32).unwrap()), vec![i32::MAX, i32::MIN + 2]);
    assert_eq!(as_i32(c.sub(&d).unwrap().to_vec(DType::Int32).unwrap()), vec![i32::MAX - 2, i32::MIN]);
    let e = T::new(&i32s(&[46340]), &[1]).unwrap();
    assert_eq!(as_i32(e.mul(&e).unwrap().to_vec(DType::Int32).unwrap()), vec![2147395600]);
}

#[test]
fn mat_mul_dot_product() {
    let a = T::new(&i32s(&[1, 2, 3, 4, 5]), &[1, 5]).unwrap();
    let b = T::new(&i32s(&[1, 2, 3, 4, 5]), &[5, 1]).unwrap();
    let mut dest = T::new(&i32s(&[0; 1]), &[1, 1]).unwrap();
    a.mat_mul_inplace(&b, &mut dest, Activation::Linear).unwrap();
    assert_eq!(as_i32(dest.to_vec(DType::Int32).unwrap()), vec![55]);
}

#[test]
fn mat_mul_five_by_three_times_three_by_two() {
    let a = T::new(&i16s(&[1, 2, 3, 4, 5, 6, 7, 8, 9, 10, 11, 12, 13, 14, 15]), &[5, 3]).unwrap();
    let b = T::new(&i16s(&[1, 2, 3, 4, 5, 6]), &[3, 2]).unwrap();
    let mut dest = T::new(&i16s(&[0; 10]), &[5, 2]).unwrap();
    a.mat_mul_inplace(&b, &mut dest, Activation::Linear).unwrap();
    assert_eq!(
        as_i16(dest.to_vec(DType::Int16).unwrap()),
        vec![22, 28, 49, 64, 76, 100, 103, 136, 130, 172]
    );
}

#[test]
fn mat_mul_relu_clamps_negatives() {
    let a = T::new(&i32s(&[1, -2, -3, 4]), &[2, 2]).unwrap();
    let b = T::new(&i32s(&[1, 0, 0, 1]), &[2, 2]).unwrap();
    let mut dest = T::new(&i32s(&[7; 4]), &[2, 2]).unwrap();
    a.mat_mul_inplace(&b, &mut dest, Activation::ReLU).unwrap();
    assert_eq!(as_i32(dest.to_vec(DType::Int32).unwrap()), vec![1, 0, 0, 4]);
    a.mat_mul_inplace(&b, &mut dest, Activation::Linear).unwrap();
    assert_eq!(as_i32(dest.to_vec(DType::Int32).unwrap()), vec![1, -2, -3, 4]);
}

#[test]
fn transpose_all_types() {
    let a = T::new(&i32s(&[1, 2, 3, 4, 5, 6]), &[2, 3]).unwrap();
    let result = a.transpose().unwrap();
    assert_eq!(result.shape(), Shape::new(&[3, 2]));
    assert_eq!(as_i32(result.to_vec(DType::Int32).unwrap()), vec![1, 4, 2, 5, 3, 6]);

    let a = T::new(&f32s(&[1.0, 2.0, 3.0, 4.0, 5.0, 6.0]), &[2, 3]).unwrap();
    let result = a.transpose().unwrap();
    assert_eq!(result.shape(), Shape::new(&[3, 2]));
    assert_eq!(as_f32(result.to_vec(DType::Float32).unwrap()), vec![1.0, 4.0, 2.0, 5.0, 3.0, 6.0]);
}

#[test]
fn sum_axis_both_axes() {
    let a = T::new(&i32s(&[1, 2, 3, 4, 5, 6]), &[2, 3]).unwrap();
    let r0 = a.sum_axis(0).unwrap();
    assert_eq!(r0.shape(), Shape::new(&[3]));
    assert_eq!(as_i32(r0.to_vec(DType::Int32).unwrap()), vec![5, 7, 9]);
    let r1 = a.sum_axis(1).unwrap();
    assert_eq!(r1.shape(), Shape::new(&[2]));
    assert_eq!(as_i32(r1.to_vec(DType::Int32).unwrap()), vec![6, 15]);

    let a = T::new(&i16s(&[1, 2, 3, 4, 5, 6]), &[2, 3]).unwrap();
    assert_eq!(as_i16(a.sum_axis(0).unwrap().to_vec(DType::Int16).unwrap()), vec![5, 7, 9]);
    assert_eq!(as_i16(a.sum_axis(1).unwrap().to_vec(DType::Int16).unwrap()), vec![6, 15]);
}

#[test]
fn broadcast_both_axes() {
    let a = T::new(&i32s(&[1, 2, 3]), &[3]).unwrap();
    let result = a.broadcast(&[4, 3], 0).unwrap();
    assert_eq!(result.shape(), Shape::new(&[4, 3]));
    assert_eq!(as_i32(result.to_vec(DType::Int32).unwrap()), vec![1, 2, 3].repeat(4));

    let result = a.broadcast(&[3, 4], 1).unwrap();
    assert_eq!(result.shape(), Shape::new(&[3, 4]));
    assert_eq!(as_i32(result.to_vec(DType::Int32).unwrap()), vec![1, 1, 1, 1, 2, 2, 2, 2, 3, 3, 3, 3]);

    let f = T::new(&f32s(&[1.5, 2.5]), &[2]).unwrap();
    let result = f.broadcast(&[2, 2], 1).unwrap();
    assert_eq!(as_f32(result.to_vec(DType::Float32).unwrap()), vec![1.5, 1.5, 2.5, 2.5]);
}

#[test]
fn float_arithmetic_is_reported_by_the_cpu_backend() {
    let a = T::new(&f32s(&[1.0, 2.0]), &[2]).unwrap();
    let b = T::new(&f32s(&[1.0, 2.0]), &[2]).unwrap();
    match a.add(&b) {
        Err(TensorError::BackendFailure(_)) => {}
        Err(other) => panic!("unexpected error {:?}", other),
        Ok(_) => panic!("float arithmetic completed on the CPU backend"),
    }
}

#[test]
fn new_and_to_vec_round_trip() {
    let t = T::new(&i16s(&[3, -1, 4]), &[3]).unwrap();
    assert_eq!(
        t.to_vec(DType::Int32).unwrap_err(),
        TensorError::TypeMismatch { expected: DType::Int16, got: DType::Int32 }
    );
    assert_eq!(as_i16(t.to_vec(DType::Int16).unwrap()), vec![3, -1, 4]);
    let f = T::new(&f32s(&[0.5, -2.0]), &[1, 2]).unwrap();
    assert_eq!(as_f32(f.to_vec(DType::Float32).unwrap()), vec![0.5, -2.0]);
}

#[test]
fn range_checks_find_the_first_overflow() {
    let a = i16s(&[30000, -30000, 1]);
    let ok = i16s(&[2767, -2768, 2]);
    let over = i16s(&[2768, -2768, 2]);
    assert!(elementwise_in_range(ElemOp::Add, &a, &ok, 3));
    assert!(!elementwise_in_range(ElemOp::Add, &a, &over, 3));
    assert!(elementwise_in_range(ElemOp::Add, &a, &over, 0));
    assert!(!elementwise_in_range(ElemOp::Mul, &a, &ok, 3));
    assert!(elementwise_in_range(ElemOp::Sub, &i32s(&[i32::MIN + 1]), &i32s(&[1]), 1));
    assert!(!elementwise_in_range(ElemOp::Sub, &i32s(&[i32::MIN]), &i32s(&[1]), 1));
    assert!(elementwise_in_range(ElemOp::Add, &f32s(&[3.0e38]), &f32s(&[3.0e38]), 1));

    // Each term fits but the running sum of row 0 leaves the i16 range.
    let m = i16s(&[200, 200, 1, 1]);
    let k = i16s(&[100, 1, 100, 1]);
    assert!(!matmul_in_range(&m, Shape::new(&[2, 2]), &k, Shape::new(&[2, 2])));
    let small = i16s(&[2, 3, 4, 5]);
    assert!(matmul_in_range(&small, Shape::new(&[2, 2]), &k, Shape::new(&[2, 2])));
    // A single term that leaves the range.
    assert!(!matmul_in_range(&i16s(&[300]), Shape::new(&[1, 1]), &i16s(&[300]), Shape::new(&[1, 1])));

    let s = i16s(&[20000, 1, 20000, 1]);
    assert!(!sum_axis_in_range(&s, Shape::new(&[2, 2]), 0));
    assert!(sum_axis_in_range(&s, Shape::new(&[2, 2]), 1));
    let r = i16s(&[20000, 20000, 1, 1]);
    assert!(sum_axis_in_range(&r, Shape::new(&[2, 2]), 0));
    assert!(!sum_axis_in_range(&r, Shape::new(&[2, 2]), 1));
}
