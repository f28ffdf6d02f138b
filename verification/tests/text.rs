use jhtensor::tensor::{DType, Shape, TensorDType, TensorError};

#[test]
fn test_shape_mismatch_display() {
    let error = TensorError::ShapeMismatch { expected: Shape::new(&[2, 3]), got: Shape::new(&[2, 4]) };
    assert_eq!(error.to_string(), "Tensor shapes do not match: expected [2, 3], got [2, 4]");
}

#[test]
fn test_type_mismatch_display() {
    let error = TensorError::TypeMismatch { expected: DType::Float32, got: DType::Int32 };
    assert_eq!(error.to_string(), "Tensor dtypes do not match: expected Float32, got Int32");
}

#[test]
fn test_data_length_mismatch_display() {
    let error = TensorError::DataLengthMismatch { expected_len: 10, got_len: 5 };
    assert_eq!(error.to_string(), "Data length does not match shape: expected 10, got 5");
}

#[test]
fn test_dimension_mismatch_display() {
    let error = TensorError::DimensionMismatch { expected: 2, got: 3 };
    assert_eq!(error.to_string(), "Invalid tensor dimensions: expected 2, got 3");
}

#[test]
fn test_backend_failure_display() {
    let error = TensorError::BackendFailure("GPU out of memory".into());
    assert_eq!(error.to_string(), "Backend operation failed: GPU out of memory");
}

#[test]
fn dtype_sizes_and_pipeline_names() {
    assert_eq!(DType::Float32.byte_size(), 4);
    assert_eq!(DType::Int32.byte_size(), 4);
    assert_eq!(DType::Int16.byte_size(), 2);
    assert_eq!(DType::Float32.pipeline_name("mat_mul"), "mat_mul_f32");
    assert_eq!(DType::Int32.pipeline_name("add_arrays"), "add_arrays_i32");
    assert_eq!(DType::Int16.pipeline_name("sum_axis"), "sum_axis_i16");
}

#[test]
fn tensor_dtype_of_primitives() {
    assert_eq!(<i32 as TensorDType>::dtype(), DType::Int32);
    assert_eq!(<i16 as TensorDType>::dtype(), DType::Int16);
}
