use jhtensor::tensor::{Activation, CPUBackend, DType, Shape, Tensor, TensorData, TensorDType, TensorError};

type T = Tensor<CPUBackend>;

fn f32s(values: &[f32]) -> TensorData {
    TensorData::Float32(values.iter().map(|x| x.to_bits()).collect())
}

fn i32s(values: &[i32]) -> TensorData {
    TensorData::Int32(values.to_vec())
}

#[test]
fn test_tensor_new_shape_mismatch() {
    let result = T::new(&f32s(&[1.0, 2.0, 3.0, 4.0, 5.0]), &[4]);
    assert!(result.is_err());
    assert_eq!(
        result.err().unwrap(),
        TensorError::DataLengthMismatch {
            expected_len: 4,
            got_len: 5
        }
    );
}

#[test]
fn test_tensor_to_vec_type_mismatch() {
    let tensor = T::new(&f32s(&[1.0, 2.0, 3.0, 4.0, 5.0]), &[5]).unwrap();
    let result = tensor.to_vec(<i32 as TensorDType>::dtype());
    assert!(result.is_err());
    assert_eq!(
        result.err().unwrap(),
        TensorError::TypeMismatch {
            expected: DType::Float32,
            got: DType::Int32
        }
    );
}

// Matrix product with a one-dimensional operand, and transposition of a one-dimensional tensor.
#[test]
fn tensor_test_tensor_shape_mismatch() {
    let a = T::new(&f32s(&[1.0, 2.0, 3.0, 4.0, 5.0]), &[5]).unwrap();
    let b = T::new(&f32s(&[1.0, 2.0, 3.0, 4.0, 5.0]), &[5, 1]).unwrap();
    let mut dest = T::new(&f32s(&[0.0; 25]), &[5, 5]).unwrap();

    let result = a.mat_mul_inplace(&b, &mut dest, Activation::Linear);
    assert!(result.is_err());
    assert_eq!(result.err().unwrap(), TensorError::DimensionMismatch { expected: 2, got: 1 });

    let a = T::new(&f32s(&[1.0, 2.0, 3.0, 4.0, 5.0]), &[5]).unwrap();
    let result = a.transpose();
    assert!(result.is_err());
    assert_eq!(result.err().unwrap(), TensorError::DimensionMismatch { expected: 2, got: 1 });
}

// Destination of the wrong element type: matrix product and axis sum.
#[test]
fn tensor_test_dest_type_mismatch() {
    let a = T::new(&f32s(&[1.0, 2.0, 3.0, 4.0, 5.0]), &[5, 1]).unwrap();
    let b = T::new(&f32s(&[1.0, 2.0, 3.0, 4.0, 5.0]), &[1, 5]).unwrap();
    let mut dest = T::new(&i32s(&[0; 25]), &[5, 5]).unwrap();

    let result = a.mat_mul_inplace(&b, &mut dest, Activation::Linear);
    assert!(result.is_err());
    assert_eq!(
        result.err().unwrap(),
        TensorError::TypeMismatch {
            expected: DType::Float32,
            got: DType::Int32
        }
    );

    let a = T::new(&f32s(&[1.0, 2.0, 3.0, 4.0]), &[2, 2]).unwrap();
    let mut dest = T::new(&i32s(&[0; 2]), &[2]).unwrap();
    let result = a.sum_axis_inplace(0, &mut dest);
    assert!(result.is_err());
    assert_eq!(
        result.err().unwrap(),
        TensorError::TypeMismatch {
            expected: DType::Float32,
            got: DType::Int32,
        },
    );
}

// Destination of the wrong shape: matrix product and axis sum.
#[test]
fn tensor_test_dest_shape_mismatch() {
    let a = T::new(&f32s(&[1.0, 2.0, 3.0, 4.0, 5.0]), &[5, 1]).unwrap();
    let b = T::new(&f32s(&[1.0, 2.0, 3.0, 4.0, 5.0]), &[1, 5]).unwrap();
    let mut dest = T::new(&f32s(&[0.0; 16]), &[4, 4]).unwrap();

    let result = a.mat_mul_inplace(&b, &mut dest, Activation::Linear);
    assert!(result.is_err());
    assert_eq!(
        result.err().unwrap(),
        TensorError::ShapeMismatch {
            expected: Shape::new(&[5, 5]),
            got: Shape::new(&[4, 4])
        }
    );

    let a = T::new(&f32s(&[1.0, 2.0, 3.0, 4.0]), &[2, 2]).unwrap();
    let mut dest = T::new(&f32s(&[0.0; 4]), &[4]).unwrap();
    let result = a.sum_axis_inplace(0, &mut dest);
    assert!(result.is_err());
    assert_eq!(
        result.err().unwrap(),
        TensorError::ShapeMismatch {
            expected: Shape::new(&[2]),
            got: Shape::new(&[4]),
        },
    );
}

#[test]
fn test_other_tensor_type_mismatch() {
    let a = T::new(&f32s(&[1.0, 2.0, 3.0, 4.0, 5.0]), &[5, 1]).unwrap();
    let b = T::new(&i32s(&[1, 2, 3, 4, 5]), &[1, 5]).unwrap();
    let mut dest = T::new(&f32s(&[0.0; 25]), &[5, 5]).unwrap();

    let result = a.mat_mul_inplace(&b, &mut dest, Activation::Linear);
    assert!(result.is_err());
    assert_eq!(
        result.err().unwrap(),
        TensorError::TypeMismatch {
            expected: DType::Float32,
            got: DType::Int32
        }
    );
}

#[test]
fn test_other_tensor_shape_mismatch() {
    let a = T::new(&f32s(&[1.0, 2.0, 3.0, 4.0]), &[2, 2]).unwrap();
    let b = T::new(&f32s(&[1.0, 2.0, 3.0, 4.0, 5.0]), &[5, 1]).unwrap();
    let mut dest = T::new(&f32s(&[0.0; 10]), &[2, 5]).unwrap();

    let result = a.mat_mul_inplace(&b, &mut dest, Activation::Linear);
    assert!(result.is_err());
    assert_eq!(
        result.err().unwrap(),
        TensorError::ShapeMismatch {
            expected: Shape::new(&[2, 1]),
            got: Shape::new(&[2, 2])
        }
    );
}

#[test]
fn test_tensor_shape_mismatch_inplace() {
    let a = T::new(&f32s(&[1.0, 2.0, 3.0, 4.0, 5.0]), &[5]).unwrap();
    let mut dest = T::new(&f32s(&[0.0; 6]), &[2, 3]).unwrap();
    let result = a.transpose_inplace(&mut dest);
    assert!(result.is_err());
    assert_eq!(result.err().unwrap(), TensorError::DimensionMismatch { expected: 2, got: 1 },);
}

#[test]
fn test_tensor_dest_shape_inline_mismatch() {
    let a = T::new(&f32s(&[1.0, 2.0, 3.0, 4.0, 5.0, 6.0]), &[2, 3]).unwrap();
    let mut dest = T::new(&f32s(&[0.0; 6]), &[2, 3]).unwrap();
    let result = a.transpose_inplace(&mut dest);
    assert!(result.is_err());
    assert_eq!(
        result.err().unwrap(),
        TensorError::ShapeMismatch {
            expected: Shape::new(&[3, 2]),
            got: Shape::new(&[2, 3]),
        },
    );
}

// Element types that differ: transposition into an `Int32` tensor and broadcast into one.
#[test]
fn tensor_test_tensor_type_mismatch() {
    let a = T::new(&f32s(&[1.0, 2.0, 3.0, 4.0, 5.0, 6.0]), &[2, 3]).unwrap();
    let mut dest = T::new(&i32s(&[0; 6]), &[3, 2]).unwrap();
    let result = a.transpose_inplace(&mut dest);
    assert!(result.is_err());
    assert_eq!(
        result.err().unwrap(),
        TensorError::TypeMismatch {
            expected: DType::Float32,
            got: DType::Int32,
        },
    );

    let a = T::new(&f32s(&[1.0, 2.0, 3.0, 4.0]), &[2, 2]).unwrap();
    let mut dest = T::new(&i32s(&[0; 4]), &[2, 2]).unwrap();
    let result = a.broadcast_inplace(0, &mut dest);
    assert!(result.is_err());
    assert_eq!(
        result.err().unwrap(),
        TensorError::TypeMismatch {
            expected: DType::Float32,
            got: DType::Int32,
        },
    );
}

// A one-dimensional tensor summed over an axis, directly and into a destination.
#[test]
fn tensor_test_tensor_wrong_dimension() {
    let a = T::new(&f32s(&[1.0, 2.0, 3.0, 4.0, 5.0]), &[5]).unwrap();
    let result = a.sum_axis(0);
    assert!(result.is_err());
    assert_eq!(result.err().unwrap(), TensorError::DimensionMismatch { expected: 2, got: 1 },);

    let a = T::new(&f32s(&[1.0, 2.0, 3.0, 4.0, 5.0]), &[5]).unwrap();
    let mut dest = T::new(&f32s(&[0.0; 5]), &[5]).unwrap();
    let result = a.sum_axis_inplace(0, &mut dest);
    assert!(result.is_err());
    assert_eq!(result.err().unwrap(), TensorError::DimensionMismatch { expected: 2, got: 1 },);
}

// An axis past the last one: axis sum, axis sum into a destination, and broadcast.
#[test]
fn tensor_test_axis_out_of_bounds() {
    let a = T::new(&f32s(&[1.0, 2.0, 3.0, 4.0]), &[2, 2]).unwrap();
    let result = a.sum_axis(2);
    assert!(result.is_err());
    assert_eq!(result.err().unwrap(), TensorError::DimensionMismatch { expected: 3, got: 2 },);

    let a = T::new(&f32s(&[1.0, 2.0, 3.0, 4.0]), &[2, 2]).unwrap();
    let mut dest = T::new(&f32s(&[0.0; 2]), &[2]).unwrap();
    let result = a.sum_axis_inplace(2, &mut dest);
    assert!(result.is_err());
    assert_eq!(result.err().unwrap(), TensorError::DimensionMismatch { expected: 3, got: 2 },);

    let a = T::new(&f32s(&[1.0, 2.0, 3.0, 4.0]), &[4]).unwrap();
    let result = a.broadcast(&[4, 4], 2);
    assert!(result.is_err());
    assert_eq!(result.err().unwrap(), TensorError::DimensionMismatch { expected: 2, got: 2 },);
}

#[test]
fn test_self_wrong_dimension() {
    let a = T::new(&f32s(&[1.0, 2.0, 3.0, 4.0, 5.0, 6.0, 7.0, 8.0, 9.0, 10.0]), &[2, 5]).unwrap();
    let result = a.broadcast(&[5, 5], 0);
    assert!(result.is_err());
    assert_eq!(result.err().unwrap(), TensorError::DimensionMismatch { expected: 1, got: 2 },);
}

#[test]
fn test_shape_wrong_dimension() {
    let a = T::new(&f32s(&[1.0, 2.0, 3.0, 4.0, 5.0]), &[5]).unwrap();
    let result = a.broadcast(&[5, 5, 5], 0);
    assert!(result.is_err());
    assert_eq!(result.err().unwrap(), TensorError::DimensionMismatch { expected: 2, got: 3 },);
}

#[test]
fn test_shape_mismatch_axis_0() {
    let a = T::new(&f32s(&[1.0, 2.0, 3.0, 4.0]), &[4]).unwrap();
    let result = a.broadcast(&[5, 3], 0);
    assert!(result.is_err());
    assert_eq!(
        result.err().unwrap(),
        TensorError::ShapeMismatch {
            expected: Shape::new(&[5, 4]),
            got: Shape::new(&[5, 3])
        },
    );
}

#[test]
fn test_shape_mismatch_axis_1() {
    let a = T::new(&f32s(&[1.0, 2.0, 3.0, 4.0]), &[4]).unwrap();
    let result = a.broadcast(&[5, 5], 1);
    assert!(result.is_err());
    assert_eq!(
        result.err().unwrap(),
        TensorError::ShapeMismatch {
            expected: Shape::new(&[4, 5]),
            got: Shape::new(&[5, 5])
        },
    );
}

type Binary = fn(&T, &T) -> Result<T, TensorError>;
type BinaryInto = fn(&T, &T, &mut T) -> Result<(), TensorError>;

fn check_binary_errors(op: Binary) {
    let a = T::new(&f32s(&[1.0, 2.0, 3.0, 4.0, 5.0]), &[5]).unwrap();
    let b = T::new(&f32s(&[1.0, 2.0, 3.0, 4.0]), &[4]).unwrap();
    let result = op(&a, &b);
    assert!(result.is_err());
    assert_eq!(
        result.err().unwrap(),
        TensorError::ShapeMismatch {
            expected: Shape::new(&[5]),
            got: Shape::new(&[4])
        }
    );

    let b = T::new(&i32s(&[1, 2, 3, 4, 5]), &[5]).unwrap();
    let result = op(&a, &b);
    assert!(result.is_err());
    assert_eq!(
        result.err().unwrap(),
        TensorError::TypeMismatch {
            expected: DType::Float32,
            got: DType::Int32
        }
    );
}

fn check_binary_into_errors(op: BinaryInto) {
    let a = T::new(&f32s(&[1.0, 2.0, 3.0, 4.0, 5.0]), &[5]).unwrap();
    let b = T::new(&f32s(&[1.0, 2.0, 3.0, 4.0, 5.0]), &[5]).unwrap();
    let mut dest = T::new(&f32s(&[0.0; 4]), &[4]).unwrap();
    assert_eq!(
        op(&a, &b, &mut dest).unwrap_err(),
        TensorError::ShapeMismatch {
            expected: Shape::new(&[5]),
            got: Shape::new(&[4])
        }
    );

    let mut dest = T::new(&i32s(&[0; 5]), &[5]).unwrap();
    assert_eq!(
        op(&a, &b, &mut dest).unwrap_err(),
        TensorError::TypeMismatch {
            expected: DType::Float32,
            got: DType::Int32
        }
    );
}

#[test]
fn add_reports_mismatches() {
    check_binary_errors(T::add);
}

#[test]
fn mul_reports_mismatches() {
    check_binary_errors(T::mul);
}

#[test]
fn sub_reports_mismatches() {
    check_binary_errors(T::sub);
}

#[test]
fn add_inplace_reports_mismatches() {
    check_binary_into_errors(T::add_inplace);
}

#[test]
fn mul_inplace_reports_mismatches() {
    check_binary_into_errors(T::mul_inplace);
}

#[test]
fn sub_inplace_reports_mismatches() {
    check_binary_into_errors(T::sub_inplace);
}
