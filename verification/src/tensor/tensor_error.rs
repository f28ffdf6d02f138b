use vstd::prelude::*;
use vstd::string::*;

use super::dtype::{dtype_name, DType};
use super::shape::Shape;
use super::text::{decimal, list_text, push_decimal};

verus! {

/// The ways a tensor operation can fail.
#[derive(Debug, Clone, PartialEq)]
pub enum TensorError {
    ShapeMismatch { expected: Shape, got: Shape },
    TypeMismatch { expected: DType, got: DType },
    DataLengthMismatch { expected_len: usize, got_len: usize },
    DimensionMismatch { expected: usize, got: usize },
    BackendFailure(String),
}

/// The message that describes `e`.
pub open spec fn error_text(e: TensorError) -> Seq<char> {
    match e {
        TensorError::ShapeMismatch { expected, got } =>
            "Tensor shapes do not match: expected "@ + list_text(expected@) + ", got "@ + list_text(got@),
        TensorError::TypeMismatch { expected, got } =>
            "Tensor dtypes do not match: expected "@ + dtype_name(expected) + ", got "@ + dtype_name(got),
        TensorError::DataLengthMismatch { expected_len, got_len } =>
            "Data length does not match shape: expected "@ + decimal(expected_len as nat) + ", got "@
                + decimal(got_len as nat),
        TensorError::DimensionMismatch { expected, got } =>
            "Invalid tensor dimensions: expected "@ + decimal(expected as nat) + ", got "@ + decimal(got as nat),
        TensorError::BackendFailure(msg) => "Backend operation failed: "@ + msg@,
    }
}

impl TensorError {
    /// The message that describes the error.
    pub fn to_string(&self) -> (s: String)
        ensures
            s@ == error_text(*self),
    {
        let mut s = String::new();
        match self {
            TensorError::ShapeMismatch { expected, got } => {
                s.append("Tensor shapes do not match: expected ");
                let e = expected.to_string();
                s.append(e.as_str());
                s.append(", got ");
                let g = got.to_string();
                s.append(g.as_str());
            },
            TensorError::TypeMismatch { expected, got } => {
                s.append("Tensor dtypes do not match: expected ");
                s.append(expected.name());
                s.append(", got ");
                s.append(got.name());
            },
            TensorError::DataLengthMismatch { expected_len, got_len } => {
                s.append("Data length does not match shape: expected ");
                push_decimal(&mut s, *expected_len);
                s.append(", got ");
                push_decimal(&mut s, *got_len);
            },
            TensorError::DimensionMismatch { expected, got } => {
                s.append("Invalid tensor dimensions: expected ");
                push_decimal(&mut s, *expected);
                s.append(", got ");
                push_decimal(&mut s, *got);
            },
            TensorError::BackendFailure(msg) => {
                s.append("Backend operation failed: ");
                s.append(msg.as_str());
            },
        }
        assert(s@ =~= error_text(*self));
        s
    }
}

} // verus!
