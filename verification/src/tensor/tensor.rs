use vstd::prelude::*;

use super::dtype::{DType, TensorData};
use super::model::{
    broadcast_cols_holds, broadcast_rows_holds, col_sums_fit, col_sums_hold, elementwise_fits, elementwise_holds,
    matmul_fits, matmul_holds, row_sums_fit, row_sums_hold, transpose_holds, ElemOp,
};
use super::opts::Activation;
use super::shape::{lemma_small_products, product_fits, seq_product, spec_shape, Shape};
use super::tensor_error::TensorError;
use super::Backend;

verus! {

/// The error of the first validation that an element-wise operation of `a` and `b` into `d` fails, if any.
pub open spec fn elementwise_error(
    a_shape: Shape,
    a_dtype: DType,
    b_shape: Shape,
    b_dtype: DType,
    d_shape: Shape,
    d_dtype: DType,
) -> Option<TensorError> {
    if a_shape != b_shape {
        Some(TensorError::ShapeMismatch { expected: a_shape, got: b_shape })
    } else if d_shape != a_shape {
        Some(TensorError::ShapeMismatch { expected: a_shape, got: d_shape })
    } else if a_dtype != b_dtype {
        Some(TensorError::TypeMismatch { expected: a_dtype, got: b_dtype })
    } else if d_dtype != a_dtype {
        Some(TensorError::TypeMismatch { expected: a_dtype, got: d_dtype })
    } else {
        None
    }
}

/// The error of the first validation that a matrix product of `a` and `b` into `d` fails, if any.
pub open spec fn matmul_error(
    a_shape: Shape,
    a_dtype: DType,
    b_shape: Shape,
    b_dtype: DType,
    d_shape: Shape,
    d_dtype: DType,
) -> Option<TensorError> {
    let a = a_shape@;
    let b = b_shape@;
    if a.len() != 2 || b.len() != 2 || d_shape@.len() != 2 {
        Some(TensorError::DimensionMismatch { expected: 2, got: a.len() as usize })
    } else if a[1] != b[0] {
        Some(
            TensorError::ShapeMismatch {
                expected: spec_shape(seq![a[0], b[1]]),
                got: spec_shape(seq![a[0], a[1]]),
            },
        )
    } else if d_shape != spec_shape(seq![a[0], b[1]]) {
        Some(TensorError::ShapeMismatch { expected: spec_shape(seq![a[0], b[1]]), got: d_shape })
    } else if a_dtype != b_dtype {
        Some(TensorError::TypeMismatch { expected: a_dtype, got: b_dtype })
    } else if d_dtype != a_dtype {
        Some(TensorError::TypeMismatch { expected: a_dtype, got: d_dtype })
    } else {
        None
    }
}

/// The error of the first validation that a transposition of `a` into `d` fails, if any.
pub open spec fn transpose_error(a_shape: Shape, a_dtype: DType, d_shape: Shape, d_dtype: DType) -> Option<
    TensorError,
> {
    let a = a_shape@;
    if a.len() != 2 {
        Some(TensorError::DimensionMismatch { expected: 2, got: a.len() as usize })
    } else if d_shape != spec_shape(seq![a[1], a[0]]) {
        Some(TensorError::ShapeMismatch { expected: spec_shape(seq![a[1], a[0]]), got: d_shape })
    } else if d_dtype != a_dtype {
        Some(TensorError::TypeMismatch { expected: a_dtype, got: d_dtype })
    } else {
        None
    }
}

/// The length of the result of summing a two-dimensional tensor of shape `a` over `axis`.
pub open spec fn reduced_len(a: Seq<usize>, axis: usize) -> usize {
    if axis == 0 {
        a[1]
    } else {
        a[0]
    }
}

/// The error of the first validation on the tensor and the axis of a sum that fails, if any.
pub open spec fn sum_axis_error(a_shape: Shape, axis: usize) -> Option<TensorError> {
    let a = a_shape@;
    if a.len() != 2 {
        Some(TensorError::DimensionMismatch { expected: 2, got: a.len() as usize })
    } else if axis >= 2 {
        Some(TensorError::DimensionMismatch { expected: (axis + 1) as usize, got: 2 })
    } else {
        None
    }
}

/// The error of the first validation that a sum of `a` over `axis` into `d` fails, if any.
pub open spec fn sum_axis_into_error(
    a_shape: Shape,
    a_dtype: DType,
    axis: usize,
    d_shape: Shape,
    d_dtype: DType,
) -> Option<TensorError> {
    if sum_axis_error(a_shape, axis) is Some {
        sum_axis_error(a_shape, axis)
    } else if d_shape != spec_shape(seq![reduced_len(a_shape@, axis)]) {
        Some(
            TensorError::ShapeMismatch {
                expected: spec_shape(seq![reduced_len(a_shape@, axis)]),
                got: d_shape,
            },
        )
    } else if d_dtype != a_dtype {
        Some(TensorError::TypeMismatch { expected: a_dtype, got: d_dtype })
    } else {
        None
    }
}

/// The error of the first validation on broadcasting a vector of shape `a` to `shape` along `axis` that fails, if any.
pub open spec fn broadcast_error(a_shape: Shape, shape: Shape, axis: usize) -> Option<TensorError> {
    let a = a_shape@;
    let s = shape@;
    if a.len() != 1 {
        Some(TensorError::DimensionMismatch { expected: 1, got: a.len() as usize })
    } else if s.len() != 2 {
        Some(TensorError::DimensionMismatch { expected: 2, got: s.len() as usize })
    } else if axis >= 2 {
        Some(TensorError::DimensionMismatch { expected: 2, got: axis })
    } else if axis == 0 && a[0] != s[1] {
        Some(TensorError::ShapeMismatch { expected: spec_shape(seq![s[0], a[0]]), got: shape })
    } else if axis == 1 && a[0] != s[0] {
        Some(TensorError::ShapeMismatch { expected: spec_shape(seq![a[0], s[1]]), got: shape })
    } else {
        None
    }
}

/// The error of the first validation that broadcasting `a` into `d` along `axis` fails, if any.
pub open spec fn broadcast_into_error(
    a_shape: Shape,
    a_dtype: DType,
    axis: usize,
    d_shape: Shape,
    d_dtype: DType,
) -> Option<TensorError> {
    if a_dtype != d_dtype {
        Some(TensorError::TypeMismatch { expected: a_dtype, got: d_dtype })
    } else {
        broadcast_error(a_shape, d_shape, axis)
    }
}

/// The result of a validation: the error if there is one.
pub open spec fn validation_result(e: Option<TensorError>) -> Result<(), TensorError> {
    match e {
        Some(e) => Err(e),
        None => Ok(()),
    }
}

/// A tensor: a buffer of elements on backend `B`, with a shape and an element type.
pub struct Tensor<B: Backend> {
    data: B::Storage,
    shape: Shape,
    dtype: DType,
}

impl<B: Backend> Tensor<B> {
    /// The shape of the tensor.
    pub closed spec fn shape_spec(&self) -> Shape {
        self.shape
    }

    /// The element type of the tensor.
    pub closed spec fn dtype_spec(&self) -> DType {
        self.dtype
    }

    /// The elements of the tensor in row-major order, each as an integer.
    pub closed spec fn values(&self) -> Seq<int> {
        B::contents(&self.data)
    }

    /// The backend buffer that holds the tensor's elements.
    pub closed spec fn buffer(&self) -> B::Storage {
        self.data
    }

    /// The buffer holds elements of the tensor's element type.
    pub closed spec fn storage_matches(&self) -> bool {
        B::stored_dtype(&self.data) == self.dtype
    }

    /// The element count of the tensor's shape can be computed in `usize`; on a backend whose
    /// buffers are described (`B::modeled()`), the buffer holds exactly one element per position
    /// of the shape, of the tensor's element type.
    pub open spec fn wf(&self) -> bool {
        &&& product_fits(self.shape_spec()@)
        &&& B::modeled() ==> self.storage_matches() && self.values().len() == seq_product(self.shape_spec()@)
    }

    /// Performs matrix multiplication: dest = activation(self * other).
    pub fn mat_mul_inplace(&self, other: &Self, dest: &mut Self, activation: Activation) -> (r: Result<
        (),
        TensorError,
    >)
        requires
            self.wf(),
            other.wf(),
            old(dest).wf(),
            matmul_error(
                self.shape_spec(),
                self.dtype_spec(),
                other.shape_spec(),
                other.dtype_spec(),
                old(dest).shape_spec(),
                old(dest).dtype_spec(),
            ) is None && B::modeled() && self.dtype_spec() != DType::Float32 ==> matmul_fits(
                self.dtype_spec(),
                self.values(),
                other.values(),
                self.shape_spec()@[0] as int,
                self.shape_spec()@[1] as int,
                other.shape_spec()@[1] as int,
            ),
        ensures
            r is Ok ==> self.shape_spec()@.len() == 2 && other.shape_spec()@.len() == 2 && self.shape_spec()@[1]
                == other.shape_spec()@[0] && old(dest).shape_spec()@ == seq![
                self.shape_spec()@[0],
                other.shape_spec()@[1],
            ] && other.dtype_spec() == self.dtype_spec() && old(dest).dtype_spec() == self.dtype_spec(),
            final(dest).wf(),
            final(dest).shape_spec() == old(dest).shape_spec(),
            final(dest).dtype_spec() == old(dest).dtype_spec(),
            ({
                let err = matmul_error(
                    self.shape_spec(),
                    self.dtype_spec(),
                    other.shape_spec(),
                    other.dtype_spec(),
                    old(dest).shape_spec(),
                    old(dest).dtype_spec(),
                );
                &&& err is Some ==> r == validation_result(err) && final(dest).values() == old(dest).values()
                &&& err is None ==> B::mat_mul_outcome(
                    self.buffer(),
                    self.shape_spec(),
                    other.buffer(),
                    other.shape_spec(),
                    old(dest).buffer(),
                    self.dtype_spec(),
                    activation,
                    final(dest).buffer(),
                    r,
                )
                &&& B::modeled() && err is None && B::completes(self.dtype_spec(), true) ==> r is Ok
                &&& B::modeled() && err is None && r is Err ==> (r matches Err(e) && e is BackendFailure) && final(dest).values()
                    == old(dest).values()
                &&& B::modeled() && err is None && r is Ok && self.dtype_spec() != DType::Float32 ==> matmul_holds(
                    activation,
                    self.values(),
                    other.values(),
                    final(dest).values(),
                    self.shape_spec()@[0] as int,
                    self.shape_spec()@[1] as int,
                    other.shape_spec()@[1] as int,
                )
            }),
    {
        if self.shape.ndim() != 2 || other.shape.ndim() != 2 || dest.shape.ndim() != 2 {
            return Err(TensorError::DimensionMismatch { expected: 2, got: self.shape.ndim() });
        }
        if self.shape.index(1) != other.shape.index(0) {
            return Err(
                TensorError::ShapeMismatch {
                    expected: Shape::pair(self.shape.index(0), other.shape.index(1)),
                    got: Shape::pair(self.shape.index(0), self.shape.index(1)),
                },
            );
        }
        let expected = Shape::pair(self.shape.index(0), other.shape.index(1));
        if !dest.shape.same_as(&expected) {
            return Err(TensorError::ShapeMismatch { expected, got: dest.shape });
        }
        if self.dtype != other.dtype {
            return Err(TensorError::TypeMismatch { expected: self.dtype, got: other.dtype });
        }
        if dest.dtype != self.dtype {
            return Err(TensorError::TypeMismatch { expected: self.dtype, got: dest.dtype });
        }
        proof {
            lemma_small_products(self.shape@);
            lemma_small_products(other.shape@);
            lemma_small_products(dest.shape@);
        }
        B::mat_mul_inplace(
            &self.data,
            self.shape,
            &other.data,
            other.shape,
            &mut dest.data,
            self.dtype,
            activation,
        )
    }

    fn validate_elementwise(&self, other: &Self, dest: &Self) -> (r: Result<(), TensorError>)
        ensures
            r == validation_result(
                elementwise_error(
                    self.shape_spec(),
                    self.dtype_spec(),
                    other.shape_spec(),
                    other.dtype_spec(),
                    dest.shape_spec(),
                    dest.dtype_spec(),
                ),
            ),
    {
        if !self.shape.same_as(&other.shape) {
            return Err(TensorError::ShapeMismatch { expected: self.shape, got: other.shape });
        }
        if !dest.shape.same_as(&self.shape) {
            return Err(TensorError::ShapeMismatch { expected: self.shape, got: dest.shape });
        }
        if self.dtype != other.dtype {
            return Err(TensorError::TypeMismatch { expected: self.dtype, got: other.dtype });
        }
        if dest.dtype != self.dtype {
            return Err(TensorError::TypeMismatch { expected: self.dtype, got: dest.dtype });
        }
        Ok(())
    }

    /// Performs element-wise addition: dest = self + other.
    pub fn add_inplace(&self, other: &Self, dest: &mut Self) -> (r: Result<(), TensorError>)
        requires
            self.wf(),
            other.wf(),
            old(dest).wf(),
            elementwise_error(
                self.shape_spec(),
                self.dtype_spec(),
                other.shape_spec(),
                other.dtype_spec(),
                old(dest).shape_spec(),
                old(dest).dtype_spec(),
            ) is None && B::modeled() && self.dtype_spec() != DType::Float32 ==> elementwise_fits(
                self.dtype_spec(),
                ElemOp::Add,
                self.values(),
                other.values(),
                self.values().len() as int,
            ),
        ensures
            r is Ok ==> other.shape_spec() == self.shape_spec() && old(dest).shape_spec() == self.shape_spec()
                && other.dtype_spec() == self.dtype_spec() && old(dest).dtype_spec() == self.dtype_spec(),
            final(dest).wf(),
            final(dest).shape_spec() == old(dest).shape_spec(),
            final(dest).dtype_spec() == old(dest).dtype_spec(),
            ({
                let err = elementwise_error(
                    self.shape_spec(),
                    self.dtype_spec(),
                    other.shape_spec(),
                    other.dtype_spec(),
                    old(dest).shape_spec(),
                    old(dest).dtype_spec(),
                );
                &&& err is Some ==> r == validation_result(err) && final(dest).values() == old(dest).values()
                &&& err is None ==> B::elementwise_outcome(
                    ElemOp::Add,
                    self.buffer(),
                    other.buffer(),
                    old(dest).buffer(),
                    self.shape_spec(),
                    self.dtype_spec(),
                    final(dest).buffer(),
                    r,
                )
                &&& B::modeled() && err is None && B::completes(self.dtype_spec(), true) ==> r is Ok
                &&& B::modeled() && err is None && r is Err ==> (r matches Err(e) && e is BackendFailure) && final(dest).values()
                    == old(dest).values()
                &&& B::modeled() && err is None && r is Ok && self.dtype_spec() != DType::Float32 ==> elementwise_holds(
                    ElemOp::Add,
                    self.values(),
                    other.values(),
                    final(dest).values(),
                    self.values().len() as int,
                )
            }),
    {
        self.validate_elementwise(other, dest)?;
        B::add_arrays_inplace(&self.data, &other.data, &mut dest.data, self.shape, self.dtype)
    }

    /// Performs element-wise multiplication: dest = self * other.
    pub fn mul_inplace(&self, other: &Self, dest: &mut Self) -> (r: Result<(), TensorError>)
        requires
            self.wf(),
            other.wf(),
            old(dest).wf(),
            elementwise_error(
                self.shape_spec(),
                self.dtype_spec(),
                other.shape_spec(),
                other.dtype_spec(),
                old(dest).shape_spec(),
                old(dest).dtype_spec(),
            ) is None && B::modeled() && self.dtype_spec() != DType::Float32 ==> elementwise_fits(
                self.dtype_spec(),
                ElemOp::Mul,
                self.values(),
                other.values(),
                self.values().len() as int,
            ),
        ensures
            r is Ok ==> other.shape_spec() == self.shape_spec() && old(dest).shape_spec() == self.shape_spec()
                && other.dtype_spec() == self.dtype_spec() && old(dest).dtype_spec() == self.dtype_spec(),
            final(dest).wf(),
            final(dest).shape_spec() == old(dest).shape_spec(),
            final(dest).dtype_spec() == old(dest).dtype_spec(),
            ({
                let err = elementwise_error(
                    self.shape_spec(),
                    self.dtype_spec(),
                    other.shape_spec(),
                    other.dtype_spec(),
                    old(dest).shape_spec(),
                    old(dest).dtype_spec(),
                );
                &&& err is Some ==> r == validation_result(err) && final(dest).values() == old(dest).values()
                &&& err is None ==> B::elementwise_outcome(
                    ElemOp::Mul,
                    self.buffer(),
                    other.buffer(),
                    old(dest).buffer(),
                    self.shape_spec(),
                    self.dtype_spec(),
                    final(dest).buffer(),
                    r,
                )
                &&& B::modeled() && err is None && B::completes(self.dtype_spec(), true) ==> r is Ok
                &&& B::modeled() && err is None && r is Err ==> (r matches Err(e) && e is BackendFailure) && final(dest).values()
                    == old(dest).values()
                &&& B::modeled() && err is None && r is Ok && self.dtype_spec() != DType::Float32 ==> elementwise_holds(
                    ElemOp::Mul,
                    self.values(),
                    other.values(),
                    final(dest).values(),
                    self.values().len() as int,
                )
            }),
    {
        self.validate_elementwise(other, dest)?;
        B::mul_arrays_inplace(&self.data, &other.data, &mut dest.data, self.shape, self.dtype)
    }

    /// Performs element-wise subtraction: dest = self - other.
    pub fn sub_inplace(&self, other: &Self, dest: &mut Self) -> (r: Result<(), TensorError>)
        requires
            self.wf(),
            other.wf(),
            old(dest).wf(),
            elementwise_error(
                self.shape_spec(),
                self.dtype_spec(),
                other.shape_spec(),
                other.dtype_spec(),
                old(dest).shape_spec(),
                old(dest).dtype_spec(),
            ) is None && B::modeled() && self.dtype_spec() != DType::Float32 ==> elementwise_fits(
                self.dtype_spec(),
                ElemOp::Sub,
                self.values(),
                other.values(),
                self.values().len() as int,
            ),
        ensures
            r is Ok ==> other.shape_spec() == self.shape_spec() && old(dest).shape_spec() == self.shape_spec()
                && other.dtype_spec() == self.dtype_spec() && old(dest).dtype_spec() == self.dtype_spec(),
            final(dest).wf(),
            final(dest).shape_spec() == old(dest).shape_spec(),
            final(dest).dtype_spec() == old(dest).dtype_spec(),
            ({
                let err = elementwise_error(
                    self.shape_spec(),
                    self.dtype_spec(),
                    other.shape_spec(),
                    other.dtype_spec(),
                    old(dest).shape_spec(),
                    old(dest).dtype_spec(),
                );
                &&& err is Some ==> r == validation_result(err) && final(dest).values() == old(dest).values()
                &&& err is None ==> B::elementwise_outcome(
                    ElemOp::Sub,
                    self.buffer(),
                    other.buffer(),
                    old(dest).buffer(),
                    self.shape_spec(),
                    self.dtype_spec(),
                    final(dest).buffer(),
                    r,
                )
                &&& B::modeled() && err is None && B::completes(self.dtype_spec(), true) ==> r is Ok
                &&& B::modeled() && err is None && r is Err ==> (r matches Err(e) && e is BackendFailure) && final(dest).values()
                    == old(dest).values()
                &&& B::modeled() && err is None && r is Ok && self.dtype_spec() != DType::Float32 ==> elementwise_holds(
                    ElemOp::Sub,
                    self.values(),
                    other.values(),
                    final(dest).values(),
                    self.values().len() as int,
                )
            }),
    {
        self.validate_elementwise(other, dest)?;
        B::sub_arrays_inplace(&self.data, &other.data, &mut dest.data, self.shape, self.dtype)
    }

    /// Returns the element-wise sum of `self` and `other` in a new tensor.
    pub fn add(&self, other: &Self) -> (r: Result<Self, TensorError>)
        requires
            self.wf(),
            other.wf(),
            elementwise_error(
                self.shape_spec(),
                self.dtype_spec(),
                other.shape_spec(),
                other.dtype_spec(),
                self.shape_spec(),
                self.dtype_spec(),
            ) is None && B::modeled() && self.dtype_spec() != DType::Float32 ==> elementwise_fits(
                self.dtype_spec(),
                ElemOp::Add,
                self.values(),
                other.values(),
                self.values().len() as int,
            ),
        ensures
            ({
                let err = elementwise_error(
                    self.shape_spec(),
                    self.dtype_spec(),
                    other.shape_spec(),
                    other.dtype_spec(),
                    self.shape_spec(),
                    self.dtype_spec(),
                );
                &&& B::modeled() && err is Some && B::completes(self.dtype_spec(), false) ==> r == Err::<Self, TensorError>(
                    err->0,
                )
                &&& B::modeled() ==> (r matches Err(e) ==> Some(e) == err || e is BackendFailure)
                &&& B::modeled() && err is None && B::completes(self.dtype_spec(), false) && B::completes(self.dtype_spec(), true)
                    ==> r is Ok
                &&& r matches Ok(t) ==> {
                    &&& t.wf()
                    &&& t.shape_spec() == self.shape_spec()
                    &&& t.dtype_spec() == self.dtype_spec()
                    &&& other.shape_spec() == self.shape_spec() && other.dtype_spec() == self.dtype_spec()
                    &&& exists|before: B::Storage| #[trigger] B::elementwise_outcome(
                        ElemOp::Add,
                        self.buffer(),
                        other.buffer(),
                        before,
                        self.shape_spec(),
                        self.dtype_spec(),
                        t.buffer(),
                        Ok(()),
                    )
                    &&& B::modeled() && self.dtype_spec() != DType::Float32 ==> elementwise_holds(
                        ElemOp::Add,
                        self.values(),
                        other.values(),
                        t.values(),
                        self.values().len() as int,
                    )
                }
            }),
    {
        let size = self.shape.product();
        let result = B::allocate_empty(size, self.dtype)?;
        let mut result_tensor = Tensor { data: result, shape: self.shape, dtype: self.dtype };
        self.add_inplace(other, &mut result_tensor)?;
        Ok(result_tensor)
    }

    /// Returns the element-wise product of `self` and `other` in a new tensor.
    pub fn mul(&self, other: &Self) -> (r: Result<Self, TensorError>)
        requires
            self.wf(),
            other.wf(),
            elementwise_error(
                self.shape_spec(),
                self.dtype_spec(),
                other.shape_spec(),
                other.dtype_spec(),
                self.shape_spec(),
                self.dtype_spec(),
            ) is None && B::modeled() && self.dtype_spec() != DType::Float32 ==> elementwise_fits(
                self.dtype_spec(),
                ElemOp::Mul,
                self.values(),
                other.values(),
                self.values().len() as int,
            ),
        ensures
            ({
                let err = elementwise_error(
                    self.shape_spec(),
                    self.dtype_spec(),
                    other.shape_spec(),
                    other.dtype_spec(),
                    self.shape_spec(),
                    self.dtype_spec(),
                );
                &&& B::modeled() && err is Some && B::completes(self.dtype_spec(), false) ==> r == Err::<Self, TensorError>(
                    err->0,
                )
                &&& B::modeled() ==> (r matches Err(e) ==> Some(e) == err || e is BackendFailure)
                &&& B::modeled() && err is None && B::completes(self.dtype_spec(), false) && B::completes(self.dtype_spec(), true)
                    ==> r is Ok
                &&& r matches Ok(t) ==> {
                    &&& t.wf()
                    &&& t.shape_spec() == self.shape_spec()
                    &&& t.dtype_spec() == self.dtype_spec()
                    &&& other.shape_spec() == self.shape_spec() && other.dtype_spec() == self.dtype_spec()
                    &&& exists|before: B::Storage| #[trigger] B::elementwise_outcome(
                        ElemOp::Mul,
                        self.buffer(),
                        other.buffer(),
                        before,
                        self.shape_spec(),
                        self.dtype_spec(),
                        t.buffer(),
                        Ok(()),
                    )
                    &&& B::modeled() && self.dtype_spec() != DType::Float32 ==> elementwise_holds(
                        ElemOp::Mul,
                        self.values(),
                        other.values(),
                        t.values(),
                        self.values().len() as int,
                    )
                }
            }),
    {
        let size = self.shape.product();
        let result = B::allocate_empty(size, self.dtype)?;
        let mut result_tensor = Tensor { data: result, shape: self.shape, dtype: self.dtype };
        self.mul_inplace(other, &mut result_tensor)?;
        Ok(result_tensor)
    }

    /// Returns the element-wise difference of `self` and `other` in a new tensor.
    pub fn sub(&self, other: &Self) -> (r: Result<Self, TensorError>)
        requires
            self.wf(),
            other.wf(),
            elementwise_error(
                self.shape_spec(),
                self.dtype_spec(),
                other.shape_spec(),
                other.dtype_spec(),
                self.shape_spec(),
                self.dtype_spec(),
            ) is None && B::modeled() && self.dtype_spec() != DType::Float32 ==> elementwise_fits(
                self.dtype_spec(),
                ElemOp::Sub,
                self.values(),
                other.values(),
                self.values().len() as int,
            ),
        ensures
            ({
                let err = elementwise_error(
                    self.shape_spec(),
                    self.dtype_spec(),
                    other.shape_spec(),
                    other.dtype_spec(),
                    self.shape_spec(),
                    self.dtype_spec(),
                );
                &&& B::modeled() && err is Some && B::completes(self.dtype_spec(), false) ==> r == Err::<Self, TensorError>(
                    err->0,
                )
                &&& B::modeled() ==> (r matches Err(e) ==> Some(e) == err || e is BackendFailure)
                &&& B::modeled() && err is None && B::completes(self.dtype_spec(), false) && B::completes(self.dtype_spec(), true)
                    ==> r is Ok
                &&& r matches Ok(t) ==> {
                    &&& t.wf()
                    &&& t.shape_spec() == self.shape_spec()
                    &&& t.dtype_spec() == self.dtype_spec()
                    &&& other.shape_spec() == self.shape_spec() && other.dtype_spec() == self.dtype_spec()
                    &&& exists|before: B::Storage| #[trigger] B::elementwise_outcome(
                        ElemOp::Sub,
                        self.buffer(),
                        other.buffer(),
                        before,
                        self.shape_spec(),
                        self.dtype_spec(),
                        t.buffer(),
                        Ok(()),
                    )
                    &&& B::modeled() && self.dtype_spec() != DType::Float32 ==> elementwise_holds(
                        ElemOp::Sub,
                        self.values(),
                        other.values(),
                        t.values(),
                        self.values().len() as int,
                    )
                }
            }),
    {
        let size = self.shape.product();
        let result = B::allocate_empty(size, self.dtype)?;
        let mut result_tensor = Tensor { data: result, shape: self.shape, dtype: self.dtype };
        self.sub_inplace(other, &mut result_tensor)?;
        Ok(result_tensor)
    }

    /// Returns the transpose of a two-dimensional tensor in a new tensor.
    pub fn transpose(&self) -> (r: Result<Self, TensorError>)
        requires
            self.wf(),
        ensures
            self.shape_spec()@.len() != 2 ==> r == Err::<Self, TensorError>(
                TensorError::DimensionMismatch { expected: 2, got: self.shape_spec()@.len() as usize },
            ),
            B::modeled() && self.shape_spec()@.len() == 2 && B::completes(self.dtype_spec(), false) ==> r is Ok,
            B::modeled() && self.shape_spec()@.len() == 2 ==> (r matches Err(e) ==> e is BackendFailure),
            r matches Ok(t) ==> {
                &&& t.wf()
                &&& t.shape_spec() == spec_shape(seq![self.shape_spec()@[1], self.shape_spec()@[0]])
                &&& t.dtype_spec() == self.dtype_spec()
                &&& exists|before: B::Storage| #[trigger] B::transpose_outcome(
                    self.buffer(),
                    self.shape_spec(),
                    before,
                    self.dtype_spec(),
                    t.buffer(),
                    Ok(()),
                )
                &&& B::modeled() ==> transpose_holds(
                    self.values(),
                    t.values(),
                    self.shape_spec()@[0] as int,
                    self.shape_spec()@[1] as int,
                )
            },
    {
        if self.shape.ndim() != 2 {
            return Err(TensorError::DimensionMismatch { expected: 2, got: self.shape.ndim() });
        }
        let size = self.shape.product();
        let result = B::allocate_empty(size, self.dtype)?;
        let result_shape = Shape::pair(self.shape.index(1), self.shape.index(0));
        proof {
            lemma_small_products(self.shape@);
            lemma_small_products(result_shape@);
            assert(self.shape@[1] * self.shape@[0] == self.shape@[0] * self.shape@[1]) by (nonlinear_arith);
            assert(result_shape@.take(0) =~= Seq::<usize>::empty());
            assert(result_shape@.take(1) =~= seq![self.shape@[1]]);
            lemma_small_products(seq![self.shape@[1]]);
            assert(result_shape@.take(2) =~= result_shape@);
        }
        let mut result_tensor = Tensor { data: result, shape: result_shape, dtype: self.dtype };
        self.transpose_inplace(&mut result_tensor)?;
        Ok(result_tensor)
    }

    /// Transposes a two-dimensional tensor into `dest`.
    pub fn transpose_inplace(&self, dest: &mut Self) -> (r: Result<(), TensorError>)
        requires
            self.wf(),
            old(dest).wf(),
        ensures
            final(dest).wf(),
            final(dest).shape_spec() == old(dest).shape_spec(),
            final(dest).dtype_spec() == old(dest).dtype_spec(),
            ({
                let err = transpose_error(
                    self.shape_spec(),
                    self.dtype_spec(),
                    old(dest).shape_spec(),
                    old(dest).dtype_spec(),
                );
                &&& err is Some ==> r == validation_result(err) && final(dest).values() == old(dest).values()
                &&& err is None ==> B::transpose_outcome(
                    self.buffer(),
                    self.shape_spec(),
                    old(dest).buffer(),
                    self.dtype_spec(),
                    final(dest).buffer(),
                    r,
                )
                &&& B::modeled() && err is None && B::completes(self.dtype_spec(), false) ==> r is Ok
                &&& B::modeled() && err is None && r is Err ==> (r matches Err(e) && e is BackendFailure) && final(dest).values()
                    == old(dest).values()
                &&& B::modeled() && err is None && r is Ok ==> transpose_holds(
                    self.values(),
                    final(dest).values(),
                    self.shape_spec()@[0] as int,
                    self.shape_spec()@[1] as int,
                )
            }),
    {
        if self.shape.ndim() != 2 {
            return Err(TensorError::DimensionMismatch { expected: 2, got: self.shape.ndim() });
        }
        let expected = Shape::pair(self.shape.index(1), self.shape.index(0));
        if !dest.shape.same_as(&expected) {
            return Err(TensorError::ShapeMismatch { expected, got: dest.shape });
        }
        if dest.dtype != self.dtype {
            return Err(TensorError::TypeMismatch { expected: self.dtype, got: dest.dtype });
        }
        proof {
            lemma_small_products(self.shape@);
            lemma_small_products(dest.shape@);
            assert(self.shape@[1] * self.shape@[0] == self.shape@[0] * self.shape@[1]) by (nonlinear_arith);
        }
        B::transpose_inplace(&self.data, self.shape, &mut dest.data, self.dtype)
    }

    /// Sums a two-dimensional tensor over `axis` into a new one-dimensional tensor:
    /// axis 0 sums each column, axis 1 each row.
    pub fn sum_axis(&self, axis: usize) -> (r: Result<Self, TensorError>)
        requires
            self.wf(),
            self.shape_spec()@.len() == 2 ==> axis < usize::MAX,
            sum_axis_error(self.shape_spec(), axis) is None && B::modeled() && self.dtype_spec() != DType::Float32 && axis == 0
                ==> col_sums_fit(
                self.dtype_spec(),
                self.values(),
                self.shape_spec()@[0] as int,
                self.shape_spec()@[1] as int,
            ),
            sum_axis_error(self.shape_spec(), axis) is None && B::modeled() && self.dtype_spec() != DType::Float32 && axis == 1
                ==> row_sums_fit(
                self.dtype_spec(),
                self.values(),
                self.shape_spec()@[0] as int,
                self.shape_spec()@[1] as int,
            ),
        ensures
            sum_axis_error(self.shape_spec(), axis) is Some ==> r == Err::<Self, TensorError>(
                sum_axis_error(self.shape_spec(), axis)->0,
            ),
            B::modeled() && sum_axis_error(self.shape_spec(), axis) is None && B::completes(self.dtype_spec(), false)
                && B::completes(self.dtype_spec(), true) ==> r is Ok,
            B::modeled() && sum_axis_error(self.shape_spec(), axis) is None ==> (r matches Err(e) ==> e is BackendFailure),
            r matches Ok(t) ==> {
                &&& t.wf()
                &&& t.shape_spec() == spec_shape(seq![reduced_len(self.shape_spec()@, axis)])
                &&& t.dtype_spec() == self.dtype_spec()
                &&& exists|before: B::Storage| #[trigger] B::sum_axis_outcome(
                    self.buffer(),
                    self.shape_spec(),
                    before,
                    self.dtype_spec(),
                    axis,
                    t.buffer(),
                    Ok(()),
                )
                &&& B::modeled() && self.dtype_spec() != DType::Float32 && axis == 0 ==> col_sums_hold(
                    self.values(),
                    t.values(),
                    self.shape_spec()@[0] as int,
                    self.shape_spec()@[1] as int,
                )
                &&& B::modeled() && self.dtype_spec() != DType::Float32 && axis == 1 ==> row_sums_hold(
                    self.values(),
                    t.values(),
                    self.shape_spec()@[0] as int,
                    self.shape_spec()@[1] as int,
                )
            },
    {
        if self.shape.ndim() != 2 {
            return Err(TensorError::DimensionMismatch { expected: 2, got: self.shape.ndim() });
        }
        if axis >= self.shape.ndim() {
            return Err(TensorError::DimensionMismatch { expected: axis + 1, got: self.shape.ndim() });
        }
        let dest_size = if axis == 0 {
            self.shape.index(1)
        } else {
            self.shape.index(0)
        };
        let result = B::allocate_empty(dest_size, self.dtype)?;
        let result_shape = Shape::single(dest_size);
        proof {
            lemma_small_products(result_shape@);
            assert(result_shape@.take(0) =~= Seq::<usize>::empty());
            assert(result_shape@.take(1) =~= result_shape@);
        }
        let mut result_tensor = Tensor { data: result, shape: result_shape, dtype: self.dtype };
        self.sum_axis_inplace(axis, &mut result_tensor)?;
        Ok(result_tensor)
    }

    /// Sums a two-dimensional tensor over `axis` into `dest`: axis 0 sums each column, axis 1 each row.
    pub fn sum_axis_inplace(&self, axis: usize, dest: &mut Self) -> (r: Result<(), TensorError>)
        requires
            self.wf(),
            old(dest).wf(),
            self.shape_spec()@.len() == 2 ==> axis < usize::MAX,
            sum_axis_into_error(
                self.shape_spec(),
                self.dtype_spec(),
                axis,
                old(dest).shape_spec(),
                old(dest).dtype_spec(),
            ) is None && B::modeled() && self.dtype_spec() != DType::Float32 && axis == 0 ==> col_sums_fit(
                self.dtype_spec(),
                self.values(),
                self.shape_spec()@[0] as int,
                self.shape_spec()@[1] as int,
            ),
            sum_axis_into_error(
                self.shape_spec(),
                self.dtype_spec(),
                axis,
                old(dest).shape_spec(),
                old(dest).dtype_spec(),
            ) is None && B::modeled() && self.dtype_spec() != DType::Float32 && axis == 1 ==> row_sums_fit(
                self.dtype_spec(),
                self.values(),
                self.shape_spec()@[0] as int,
                self.shape_spec()@[1] as int,
            ),
        ensures
            final(dest).wf(),
            final(dest).shape_spec() == old(dest).shape_spec(),
            final(dest).dtype_spec() == old(dest).dtype_spec(),
            ({
                let err = sum_axis_into_error(
                    self.shape_spec(),
                    self.dtype_spec(),
                    axis,
                    old(dest).shape_spec(),
                    old(dest).dtype_spec(),
                );
                &&& err is Some ==> r == validation_result(err) && final(dest).values() == old(dest).values()
                &&& err is None ==> B::sum_axis_outcome(
                    self.buffer(),
                    self.shape_spec(),
                    old(dest).buffer(),
                    self.dtype_spec(),
                    axis,
                    final(dest).buffer(),
                    r,
                )
                &&& B::modeled() && err is None && B::completes(self.dtype_spec(), true) ==> r is Ok
                &&& B::modeled() && err is None && r is Err ==> (r matches Err(e) && e is BackendFailure) && final(dest).values()
                    == old(dest).values()
                &&& B::modeled() && err is None && r is Ok && self.dtype_spec() != DType::Float32 && axis == 0 ==> col_sums_hold(
                    self.values(),
                    final(dest).values(),
                    self.shape_spec()@[0] as int,
                    self.shape_spec()@[1] as int,
                )
                &&& B::modeled() && err is None && r is Ok && self.dtype_spec() != DType::Float32 && axis == 1 ==> row_sums_hold(
                    self.values(),
                    final(dest).values(),
                    self.shape_spec()@[0] as int,
                    self.shape_spec()@[1] as int,
                )
            }),
    {
        if self.shape.ndim() != 2 {
            return Err(TensorError::DimensionMismatch { expected: 2, got: self.shape.ndim() });
        }
        if axis >= self.shape.ndim() {
            return Err(TensorError::DimensionMismatch { expected: axis + 1, got: self.shape.ndim() });
        }
        let dest_size = if axis == 0 {
            self.shape.index(1)
        } else {
            self.shape.index(0)
        };
        let expected = Shape::single(dest_size);
        if !dest.shape.same_as(&expected) {
            return Err(TensorError::ShapeMismatch { expected, got: dest.shape });
        }
        if dest.dtype != self.dtype {
            return Err(TensorError::TypeMismatch { expected: self.dtype, got: dest.dtype });
        }
        proof {
            lemma_small_products(self.shape@);
            lemma_small_products(dest.shape@);
        }
        B::sum_axis_inplace(&self.data, self.shape, &mut dest.data, self.dtype, axis)
    }

    /// Broadcasts a one-dimensional tensor to the two-dimensional `shape` in a new tensor:
    /// along axis 1 row `i` is filled with element `i`, along axis 0 every row is a copy of the tensor.
    pub fn broadcast(&self, shape: &[usize], axis: usize) -> (r: Result<Self, TensorError>)
        requires
            self.wf(),
            broadcast_error(self.shape_spec(), spec_shape(shape@), axis) is None ==> product_fits(
                spec_shape(shape@)@,
            ),
        ensures
            ({
                let err = broadcast_error(self.shape_spec(), spec_shape(shape@), axis);
                &&& err is Some ==> r == Err::<Self, TensorError>(err->0)
                &&& B::modeled() && err is None && B::completes(self.dtype_spec(), false) ==> r is Ok
                &&& B::modeled() && err is None ==> (r matches Err(e) ==> e is BackendFailure)
            }),
            r matches Ok(t) ==> {
                &&& t.wf()
                &&& t.shape_spec() == spec_shape(shape@)
                &&& t.dtype_spec() == self.dtype_spec()
                &&& exists|before: B::Storage| #[trigger] B::broadcast_outcome(
                    self.buffer(),
                    self.shape_spec(),
                    before,
                    spec_shape(shape@),
                    self.dtype_spec(),
                    axis,
                    t.buffer(),
                    Ok(()),
                )
                &&& B::modeled() && axis == 1 ==> broadcast_rows_holds(
                    self.values(),
                    t.values(),
                    t.shape_spec()@[0] as int,
                    t.shape_spec()@[1] as int,
                )
                &&& B::modeled() && axis == 0 ==> broadcast_cols_holds(
                    self.values(),
                    t.values(),
                    t.shape_spec()@[0] as int,
                    t.shape_spec()@[1] as int,
                )
            },
    {
        let shape = Shape::new(shape);
        self.validate_broadcast_params(shape, axis)?;
        let dest_size = shape.product();
        let result = B::allocate_empty(dest_size, self.dtype)?;
        let mut result_tensor = Tensor { data: result, shape: shape, dtype: self.dtype };
        self.broadcast_inplace(axis, &mut result_tensor)?;
        Ok(result_tensor)
    }

    /// Broadcasts a one-dimensional tensor into the two-dimensional `dest` along `axis`.
    pub fn broadcast_inplace(&self, axis: usize, dest: &mut Self) -> (r: Result<(), TensorError>)
        requires
            self.wf(),
            old(dest).wf(),
        ensures
            final(dest).wf(),
            final(dest).shape_spec() == old(dest).shape_spec(),
            final(dest).dtype_spec() == old(dest).dtype_spec(),
            ({
                let err = broadcast_into_error(
                    self.shape_spec(),
                    self.dtype_spec(),
                    axis,
                    old(dest).shape_spec(),
                    old(dest).dtype_spec(),
                );
                &&& err is Some ==> r == validation_result(err) && final(dest).values() == old(dest).values()
                &&& err is None ==> B::broadcast_outcome(
                    self.buffer(),
                    self.shape_spec(),
                    old(dest).buffer(),
                    old(dest).shape_spec(),
                    self.dtype_spec(),
                    axis,
                    final(dest).buffer(),
                    r,
                )
                &&& B::modeled() && err is None && B::completes(self.dtype_spec(), false) ==> r is Ok
                &&& B::modeled() && err is None && r is Err ==> (r matches Err(e) && e is BackendFailure) && final(dest).values()
                    == old(dest).values()
                &&& B::modeled() && err is None && r is Ok && axis == 1 ==> broadcast_rows_holds(
                    self.values(),
                    final(dest).values(),
                    old(dest).shape_spec()@[0] as int,
                    old(dest).shape_spec()@[1] as int,
                )
                &&& B::modeled() && err is None && r is Ok && axis == 0 ==> broadcast_cols_holds(
                    self.values(),
                    final(dest).values(),
                    old(dest).shape_spec()@[0] as int,
                    old(dest).shape_spec()@[1] as int,
                )
            }),
    {
        if self.dtype != dest.dtype {
            return Err(TensorError::TypeMismatch { expected: self.dtype, got: dest.dtype });
        }
        self.validate_broadcast_params(dest.shape, axis)?;
        proof {
            lemma_small_products(self.shape@);
        }
        B::broadcast_inplace(&self.data, self.shape, &mut dest.data, dest.shape, self.dtype, axis)
    }

    fn validate_broadcast_params(&self, shape: Shape, axis: usize) -> (r: Result<(), TensorError>)
        ensures
            r == validation_result(broadcast_error(self.shape_spec(), shape, axis)),
    {
        if self.shape.ndim() != 1 {
            return Err(TensorError::DimensionMismatch { expected: 1, got: self.shape.ndim() });
        }
        if shape.ndim() != 2 {
            return Err(TensorError::DimensionMismatch { expected: 2, got: shape.ndim() });
        }
        if axis >= shape.ndim() {
            return Err(TensorError::DimensionMismatch { expected: shape.ndim(), got: axis });
        }
        if axis == 0 && self.shape.index(0) != shape.index(1) {
            return Err(
                TensorError::ShapeMismatch { expected: Shape::pair(shape.index(0), self.shape.index(0)), got: shape },
            );
        }
        if axis == 1 && self.shape.index(0) != shape.index(0) {
            return Err(
                TensorError::ShapeMismatch { expected: Shape::pair(self.shape.index(0), shape.index(1)), got: shape },
            );
        }
        Ok(())
    }

    /// Creates a tensor of the given shape from plain element data; the data must hold exactly
    /// one element per position of the shape. Shapes of more than eight dimensions are cut to eight.
    pub fn new(data: &TensorData, shape: &[usize]) -> (r: Result<Self, TensorError>)
        requires
            product_fits(spec_shape(shape@)@),
        ensures
            data.values().len() != seq_product(spec_shape(shape@)@) ==> r == Err::<Self, TensorError>(
                TensorError::DataLengthMismatch {
                    expected_len: seq_product(spec_shape(shape@)@) as usize,
                    got_len: data.values().len() as usize,
                },
            ),
            B::modeled() && data.values().len() == seq_product(spec_shape(shape@)@) && B::completes(data.spec_dtype(), false)
                ==> r is Ok,
            B::modeled() && data.values().len() == seq_product(spec_shape(shape@)@) ==> (r matches Err(e)
                ==> e is BackendFailure),
            r matches Ok(t) ==> {
                &&& t.wf()
                &&& t.shape_spec() == spec_shape(shape@)
                &&& t.dtype_spec() == data.spec_dtype()
                &&& B::modeled() ==> t.values() == data.values()
                &&& B::from_slice_outcome(*data, Ok(t.buffer()))
            },
    {
        let shape = Shape::new(shape);
        let expected_len = shape.product();
        if data.len() != expected_len {
            return Err(TensorError::DataLengthMismatch { expected_len, got_len: data.len() });
        }
        let storage = B::from_slice(data)?;
        Ok(Tensor { data: storage, shape: shape, dtype: data.dtype() })
    }

    /// Copies the elements out as plain data; `dtype` must be the tensor's element type.
    pub fn to_vec(&self, dtype: DType) -> (r: Result<TensorData, TensorError>)
        requires
            self.wf(),
        ensures
            self.dtype_spec() != dtype ==> r == Err::<TensorData, TensorError>(
                TensorError::TypeMismatch { expected: self.dtype_spec(), got: dtype },
            ),
            B::modeled() && self.dtype_spec() == dtype && B::completes(dtype, false) ==> r is Ok,
            B::modeled() && self.dtype_spec() == dtype ==> (r matches Err(e) ==> e is BackendFailure),
            B::modeled() ==> (r matches Ok(d) ==> d.spec_dtype() == self.dtype_spec() && d.values() == self.values()),
            self.dtype_spec() == dtype ==> B::to_vec_outcome(
                self.buffer(),
                seq_product(self.shape_spec()@) as usize,
                dtype,
                r,
            ),
    {
        if self.dtype != dtype {
            return Err(TensorError::TypeMismatch { expected: self.dtype, got: dtype });
        }
        let n = self.shape.product();
        let r = B::to_vec(&self.data, n, dtype);
        proof {
            if B::modeled() {
                assert(self.values().take(n as int) =~= self.values());
            }
        }
        r
    }

    /// Returns the shape of the tensor.
    pub fn shape(&self) -> (s: Shape)
        ensures
            s == self.shape_spec(),
    {
        self.shape
    }
}

} // verus!
