use vstd::prelude::*;

mod arith;
mod cpu_backend;
mod dtype;
mod kernels;
mod laws;
mod metal_plan;
mod model;
mod opts;
mod shape;
mod tensor;
mod tensor_error;
mod text;

pub use arith::{half_modulus, in_range, Element, IntElement};
pub use cpu_backend::{elementwise_in_range, matmul_in_range, sum_axis_in_range, CPUBackend};
pub use dtype::{dtype_name, pipeline_suffix, spec_byte_size, DType, TensorData, TensorDType};
pub use laws::{
    law_broadcast_then_sum_columns, law_broadcast_then_sum_rows, law_elementwise_validation, law_matmul_validation,
    law_sum_axis_validation, law_elementwise_commutes, law_matmul_transpose,
    law_new_then_to_vec, law_relu_nonnegative, law_sub_then_add, law_sum_axis_of_transpose, law_transpose_twice,
};
pub use metal_plan::{
    broadcast_params, elementwise_dispatch, groups_for, mat_mul_params, sum_axis_dispatch, sum_axis_params,
    tiled_dispatch, transpose_params, BroadcastParams, Dispatch, GridSize, MatMulParams, SumAxisParams, TransposeParams,
    MAX_REDUCE_GROUP, TILE,
};
pub use model::{
    activate, apply_op, broadcast_cols_holds, broadcast_rows_holds, col_sum, col_sums_fit, col_sums_hold, dot,
    elementwise_fits, elementwise_holds, matmul_entry, matmul_fits, matmul_holds, row_sum, row_sums_fit, row_sums_hold,
    term, transpose_holds, unchanged_from, ElemOp,
};
pub use opts::Activation;
pub use shape::{entry_or_zero, lemma_small_products, product_fits, seq_product, spec_shape, Shape, MAX_DIMS};
pub use tensor::{
    broadcast_error, broadcast_into_error, validation_result, elementwise_error, matmul_error, reduced_len, sum_axis_error,
    sum_axis_into_error, transpose_error, Tensor,
};
pub use tensor_error::{error_text, TensorError};
pub use text::{decimal, digit_char, joined_decimals, list_text, list_to_string, push_decimal, push_text};

verus! {

/// Backend trait for all supported backends.
///
/// A backend owns buffers of elements and runs the tensor kernels on them. Its contracts speak
/// of a buffer through its element type and its elements, each as an integer (the IEEE-754 bit
/// pattern for `Float32`). What an arithmetic kernel computes on `Float32` elements is not stated.
///
/// A backend describes its buffers by overriding `stored_dtype` and `contents`, says which
/// operations it always completes by overriding `completes`, and declares that this description
/// holds by overriding `modeled` to be true. Every clause below that speaks of that description
/// holds only for such a backend. A backend that keeps the default `modeled` (one written outside
/// this crate, such as a GPU backend) is bound by no clause but the conditions on the shapes it is
/// handed, and nothing is stated of what it computes.
pub trait Backend: Sized {
    /// The underlying storage type for this backend.
    type Storage;

    /// Whether `stored_dtype`, `contents` and `completes` describe this backend. The contracts
    /// below speak of a backend only where this holds; a backend that keeps this default
    /// (every backend written outside this crate) is promised nothing and owes nothing beyond
    /// its signatures.
    open spec fn modeled() -> bool {
        false
    }

    /// The element type that a buffer holds.
    open spec fn stored_dtype(s: &Self::Storage) -> DType {
        DType::Float32
    }

    /// The elements of a buffer.
    open spec fn contents(s: &Self::Storage) -> Seq<int> {
        Seq::empty()
    }

    /// Whether the backend always completes an operation on `dtype` elements
    /// (`arithmetic`: an operation that adds or multiplies them).
    open spec fn completes(dtype: DType, arithmetic: bool) -> bool {
        false
    }

    /// What this backend's matrix product may yield: from operands `a` (of `shape_a`) and `b`
    /// (of `shape_b`), destination `before`, element type `dtype` and activation `act`, the
    /// destination `after` and the result `r`. A backend that keeps this default declares nothing.
    open spec fn mat_mul_outcome(
        a: Self::Storage,
        shape_a: Shape,
        b: Self::Storage,
        shape_b: Shape,
        before: Self::Storage,
        dtype: DType,
        act: Activation,
        after: Self::Storage,
        r: Result<(), TensorError>,
    ) -> bool {
        true
    }

    /// What this backend's element-wise operation `op` may yield on operands `a` and `b`, the
    /// destination `before`, the shape and the element type: the destination `after` and the
    /// result `r`. A backend that keeps this default declares nothing.
    open spec fn elementwise_outcome(
        op: ElemOp,
        a: Self::Storage,
        b: Self::Storage,
        before: Self::Storage,
        shape: Shape,
        dtype: DType,
        after: Self::Storage,
        r: Result<(), TensorError>,
    ) -> bool {
        true
    }

    /// What this backend's transposition may yield on `a` of `shape`, the destination `before`
    /// and the element type. A backend that keeps this default declares nothing.
    open spec fn transpose_outcome(
        a: Self::Storage,
        shape: Shape,
        before: Self::Storage,
        dtype: DType,
        after: Self::Storage,
        r: Result<(), TensorError>,
    ) -> bool {
        true
    }

    /// What this backend's sum over `axis` may yield on `a` of `shape`, the destination `before`
    /// and the element type. A backend that keeps this default declares nothing.
    open spec fn sum_axis_outcome(
        a: Self::Storage,
        shape: Shape,
        before: Self::Storage,
        dtype: DType,
        axis: usize,
        after: Self::Storage,
        r: Result<(), TensorError>,
    ) -> bool {
        true
    }

    /// What this backend's broadcast along `axis` may yield on `a` of `shape`, the destination
    /// `before` of `dest_shape` and the element type. A backend that keeps this default declares nothing.
    open spec fn broadcast_outcome(
        a: Self::Storage,
        shape: Shape,
        before: Self::Storage,
        dest_shape: Shape,
        dtype: DType,
        axis: usize,
        after: Self::Storage,
        r: Result<(), TensorError>,
    ) -> bool {
        true
    }

    /// What this backend's conversion of `data` into storage may yield. A backend that keeps this
    /// default declares nothing.
    open spec fn from_slice_outcome(data: TensorData, r: Result<Self::Storage, TensorError>) -> bool {
        true
    }

    /// What this backend's conversion of the first `num_elements` elements of `storage` (of
    /// `dtype`) into plain data may yield. A backend that keeps this default declares nothing.
    open spec fn to_vec_outcome(
        storage: Self::Storage,
        num_elements: usize,
        dtype: DType,
        r: Result<TensorData, TensorError>,
    ) -> bool {
        true
    }

    /// Performs matrix multiplication in-place: dest = activation(A * B).
    fn mat_mul_inplace(
        a: &Self::Storage,
        shape_a: Shape,
        b: &Self::Storage,
        shape_b: Shape,
        dest: &mut Self::Storage,
        dtype: DType,
        activation: Activation,
    ) -> (r: Result<(), TensorError>)
        requires
            shape_a@.len() >= 2,
            shape_b@.len() >= 2,
            Self::modeled() ==> (Self::stored_dtype(a) == dtype),
            Self::modeled() ==> (Self::stored_dtype(b) == dtype),
            Self::modeled() ==> (Self::stored_dtype(old(dest)) == dtype),
            Self::modeled() ==> (Self::contents(a).len() >= shape_a@[0] * shape_a@[1]),
            Self::modeled() ==> (Self::contents(b).len() >= shape_b@[0] * shape_b@[1]),
            Self::modeled() ==> (Self::contents(old(dest)).len() >= shape_a@[0] * shape_b@[1]),
            shape_a@[1] <= shape_b@[0] || shape_a@[0] == 0 || shape_b@[1] == 0,
            Self::modeled() ==> (dtype != DType::Float32 ==> matmul_fits(
                dtype,
                Self::contents(a),
                Self::contents(b),
                shape_a@[0] as int,
                shape_a@[1] as int,
                shape_b@[1] as int,
            )),
        ensures
            Self::modeled() ==> (Self::stored_dtype(final(dest)) == dtype),
            Self::modeled() ==> (Self::completes(dtype, true) ==> r is Ok),
            Self::modeled() ==> (r matches Err(e) ==> e is BackendFailure),
            Self::modeled() ==> (r is Err ==> Self::contents(final(dest)) == Self::contents(old(dest))),
            Self::modeled() ==> (r is Ok ==> unchanged_from(
                Self::contents(old(dest)),
                Self::contents(final(dest)),
                shape_a@[0] * shape_b@[1],
            )),
            Self::modeled() ==> (r is Ok && dtype != DType::Float32 ==> matmul_holds(
                activation,
                Self::contents(a),
                Self::contents(b),
                Self::contents(final(dest)),
                shape_a@[0] as int,
                shape_a@[1] as int,
                shape_b@[1] as int,
            )),
            Self::mat_mul_outcome(*a, shape_a, *b, shape_b, *old(dest), dtype, activation, *final(dest), r),
    ;

    /// Performs element-wise addition in-place: dest = A + B.
    fn add_arrays_inplace(
        a: &Self::Storage,
        b: &Self::Storage,
        dest: &mut Self::Storage,
        shape: Shape,
        dtype: DType,
    ) -> (r: Result<(), TensorError>)
        requires
            product_fits(shape@),
            Self::modeled() ==> (Self::stored_dtype(a) == dtype),
            Self::modeled() ==> (Self::stored_dtype(b) == dtype),
            Self::modeled() ==> (Self::stored_dtype(old(dest)) == dtype),
            Self::modeled() ==> (Self::contents(a).len() >= seq_product(shape@)),
            Self::modeled() ==> (Self::contents(b).len() >= seq_product(shape@)),
            Self::modeled() ==> (Self::contents(old(dest)).len() >= seq_product(shape@)),
            Self::modeled() ==> (dtype != DType::Float32 ==> elementwise_fits(
                dtype,
                ElemOp::Add,
                Self::contents(a),
                Self::contents(b),
                seq_product(shape@) as int,
            )),
        ensures
            Self::modeled() ==> (Self::stored_dtype(final(dest)) == dtype),
            Self::modeled() ==> (Self::completes(dtype, true) ==> r is Ok),
            Self::modeled() ==> (r matches Err(e) ==> e is BackendFailure),
            Self::modeled() ==> (r is Err ==> Self::contents(final(dest)) == Self::contents(old(dest))),
            Self::modeled() ==> (r is Ok ==> unchanged_from(Self::contents(old(dest)), Self::contents(final(dest)), seq_product(shape@) as int)),
            Self::modeled() ==> (r is Ok && dtype != DType::Float32 ==> elementwise_holds(
                ElemOp::Add,
                Self::contents(a),
                Self::contents(b),
                Self::contents(final(dest)),
                seq_product(shape@) as int,
            )),
            Self::elementwise_outcome(ElemOp::Add, *a, *b, *old(dest), shape, dtype, *final(dest), r),
    ;

    /// Performs element-wise multiplication in-place: dest = A * B.
    fn mul_arrays_inplace(
        a: &Self::Storage,
        b: &Self::Storage,
        dest: &mut Self::Storage,
        shape: Shape,
        dtype: DType,
    ) -> (r: Result<(), TensorError>)
        requires
            product_fits(shape@),
            Self::modeled() ==> (Self::stored_dtype(a) == dtype),
            Self::modeled() ==> (Self::stored_dtype(b) == dtype),
            Self::modeled() ==> (Self::stored_dtype(old(dest)) == dtype),
            Self::modeled() ==> (Self::contents(a).len() >= seq_product(shape@)),
            Self::modeled() ==> (Self::contents(b).len() >= seq_product(shape@)),
            Self::modeled() ==> (Self::contents(old(dest)).len() >= seq_product(shape@)),
            Self::modeled() ==> (dtype != DType::Float32 ==> elementwise_fits(
                dtype,
                ElemOp::Mul,
                Self::contents(a),
                Self::contents(b),
                seq_product(shape@) as int,
            )),
        ensures
            Self::modeled() ==> (Self::stored_dtype(final(dest)) == dtype),
            Self::modeled() ==> (Self::completes(dtype, true) ==> r is Ok),
            Self::modeled() ==> (r matches Err(e) ==> e is BackendFailure),
            Self::modeled() ==> (r is Err ==> Self::contents(final(dest)) == Self::contents(old(dest))),
            Self::modeled() ==> (r is Ok ==> unchanged_from(Self::contents(old(dest)), Self::contents(final(dest)), seq_product(shape@) as int)),
            Self::modeled() ==> (r is Ok && dtype != DType::Float32 ==> elementwise_holds(
                ElemOp::Mul,
                Self::contents(a),
                Self::contents(b),
                Self::contents(final(dest)),
                seq_product(shape@) as int,
            )),
            Self::elementwise_outcome(ElemOp::Mul, *a, *b, *old(dest), shape, dtype, *final(dest), r),
    ;

    /// Performs element-wise subtraction in-place: dest = A - B.
    fn sub_arrays_inplace(
        a: &Self::Storage,
        b: &Self::Storage,
        dest: &mut Self::Storage,
        shape: Shape,
        dtype: DType,
    ) -> (r: Result<(), TensorError>)
        requires
            product_fits(shape@),
            Self::modeled() ==> (Self::stored_dtype(a) == dtype),
            Self::modeled() ==> (Self::stored_dtype(b) == dtype),
            Self::modeled() ==> (Self::stored_dtype(old(dest)) == dtype),
            Self::modeled() ==> (Self::contents(a).len() >= seq_product(shape@)),
            Self::modeled() ==> (Self::contents(b).len() >= seq_product(shape@)),
            Self::modeled() ==> (Self::contents(old(dest)).len() >= seq_product(shape@)),
            Self::modeled() ==> (dtype != DType::Float32 ==> elementwise_fits(
                dtype,
                ElemOp::Sub,
                Self::contents(a),
                Self::contents(b),
                seq_product(shape@) as int,
            )),
        ensures
            Self::modeled() ==> (Self::stored_dtype(final(dest)) == dtype),
            Self::modeled() ==> (Self::completes(dtype, true) ==> r is Ok),
            Self::modeled() ==> (r matches Err(e) ==> e is BackendFailure),
            Self::modeled() ==> (r is Err ==> Self::contents(final(dest)) == Self::contents(old(dest))),
            Self::modeled() ==> (r is Ok ==> unchanged_from(Self::contents(old(dest)), Self::contents(final(dest)), seq_product(shape@) as int)),
            Self::modeled() ==> (r is Ok && dtype != DType::Float32 ==> elementwise_holds(
                ElemOp::Sub,
                Self::contents(a),
                Self::contents(b),
                Self::contents(final(dest)),
                seq_product(shape@) as int,
            )),
            Self::elementwise_outcome(ElemOp::Sub, *a, *b, *old(dest), shape, dtype, *final(dest), r),
    ;

    /// Performs matrix transposition in-place: dest = A^T.
    fn transpose_inplace(a: &Self::Storage, shape: Shape, dest: &mut Self::Storage, dtype: DType) -> (r: Result<
        (),
        TensorError,
    >)
        requires
            shape@.len() >= 2,
            Self::modeled() ==> (Self::stored_dtype(a) == dtype),
            Self::modeled() ==> (Self::stored_dtype(old(dest)) == dtype),
            Self::modeled() ==> (Self::contents(a).len() >= shape@[0] * shape@[1]),
            Self::modeled() ==> (Self::contents(old(dest)).len() >= shape@[0] * shape@[1]),
        ensures
            Self::modeled() ==> (Self::stored_dtype(final(dest)) == dtype),
            Self::modeled() ==> (Self::completes(dtype, false) ==> r is Ok),
            Self::modeled() ==> (r matches Err(e) ==> e is BackendFailure),
            Self::modeled() ==> (r is Err ==> Self::contents(final(dest)) == Self::contents(old(dest))),
            Self::modeled() ==> (r is Ok ==> unchanged_from(
                Self::contents(old(dest)),
                Self::contents(final(dest)),
                shape@[0] * shape@[1],
            )),
            Self::modeled() ==> (r is Ok ==> transpose_holds(
                Self::contents(a),
                Self::contents(final(dest)),
                shape@[0] as int,
                shape@[1] as int,
            )),
            Self::transpose_outcome(*a, shape, *old(dest), dtype, *final(dest), r),
    ;

    /// Performs sum reduction over the axis: axis 0 sums each column, axis 1 each row.
    fn sum_axis_inplace(
        a: &Self::Storage,
        shape: Shape,
        dest: &mut Self::Storage,
        dtype: DType,
        axis: usize,
    ) -> (r: Result<(), TensorError>)
        requires
            shape@.len() >= 2,
            axis < 2,
            product_fits(shape@),
            shape@[0] * shape@[1] <= seq_product(shape@),
            Self::modeled() ==> (Self::stored_dtype(a) == dtype),
            Self::modeled() ==> (Self::stored_dtype(old(dest)) == dtype),
            Self::modeled() ==> (Self::contents(a).len() >= seq_product(shape@)),
            Self::modeled() ==> (Self::contents(old(dest)).len() >= (if axis == 0 { shape@[1] } else { shape@[0] })),
            Self::modeled() ==> (dtype != DType::Float32 && axis == 0 ==> col_sums_fit(
                dtype,
                Self::contents(a),
                shape@[0] as int,
                shape@[1] as int,
            )),
            Self::modeled() ==> (dtype != DType::Float32 && axis == 1 ==> row_sums_fit(
                dtype,
                Self::contents(a),
                shape@[0] as int,
                shape@[1] as int,
            )),
        ensures
            Self::modeled() ==> (Self::stored_dtype(final(dest)) == dtype),
            Self::modeled() ==> (Self::completes(dtype, true) ==> r is Ok),
            Self::modeled() ==> (r matches Err(e) ==> e is BackendFailure),
            Self::modeled() ==> (r is Err ==> Self::contents(final(dest)) == Self::contents(old(dest))),
            Self::modeled() ==> (r is Ok ==> unchanged_from(
                Self::contents(old(dest)),
                Self::contents(final(dest)),
                (if axis == 0 { shape@[1] } else { shape@[0] }) as int,
            )),
            Self::modeled() ==> (r is Ok && dtype != DType::Float32 && axis == 0 ==> col_sums_hold(
                Self::contents(a),
                Self::contents(final(dest)),
                shape@[0] as int,
                shape@[1] as int,
            )),
            Self::modeled() ==> (r is Ok && dtype != DType::Float32 && axis == 1 ==> row_sums_hold(
                Self::contents(a),
                Self::contents(final(dest)),
                shape@[0] as int,
                shape@[1] as int,
            )),
            Self::sum_axis_outcome(*a, shape, *old(dest), dtype, axis, *final(dest), r),
    ;

    /// Performs broadcasting of the vector `a` to the destination shape: along axis 1 each row
    /// `i` is filled with `a[i]`, along axis 0 every row is a copy of `a`.
    fn broadcast_inplace(
        a: &Self::Storage,
        shape: Shape,
        dest: &mut Self::Storage,
        dest_shape: Shape,
        dtype: DType,
        axis: usize,
    ) -> (r: Result<(), TensorError>)
        requires
            shape@.len() == 1,
            dest_shape@.len() == 2,
            axis < 2,
            axis == 1 ==> shape@[0] == dest_shape@[0],
            axis == 0 ==> shape@[0] == dest_shape@[1],
            product_fits(dest_shape@),
            Self::modeled() ==> (Self::stored_dtype(a) == dtype),
            Self::modeled() ==> (Self::stored_dtype(old(dest)) == dtype),
            Self::modeled() ==> (Self::contents(a).len() >= shape@[0]),
            Self::modeled() ==> (Self::contents(old(dest)).len() >= seq_product(dest_shape@)),
        ensures
            Self::modeled() ==> (Self::stored_dtype(final(dest)) == dtype),
            Self::modeled() ==> (Self::completes(dtype, false) ==> r is Ok),
            Self::modeled() ==> (r matches Err(e) ==> e is BackendFailure),
            Self::modeled() ==> (r is Err ==> Self::contents(final(dest)) == Self::contents(old(dest))),
            Self::modeled() ==> (r is Ok ==> unchanged_from(
                Self::contents(old(dest)),
                Self::contents(final(dest)),
                seq_product(dest_shape@) as int,
            )),
            Self::modeled() ==> (r is Ok && axis == 1 ==> broadcast_rows_holds(
                Self::contents(a),
                Self::contents(final(dest)),
                dest_shape@[0] as int,
                dest_shape@[1] as int,
            )),
            Self::modeled() ==> (r is Ok && axis == 0 ==> broadcast_cols_holds(
                Self::contents(a),
                Self::contents(final(dest)),
                dest_shape@[0] as int,
                dest_shape@[1] as int,
            )),
            Self::broadcast_outcome(*a, shape, *old(dest), dest_shape, dtype, axis, *final(dest), r),
    ;

    /// Allocates a new buffer of `size` elements of type `dtype`.
    fn allocate_empty(size: usize, dtype: DType) -> (r: Result<Self::Storage, TensorError>)
        ensures
            Self::modeled() ==> (Self::completes(dtype, false) ==> r is Ok),
            Self::modeled() ==> (r matches Err(e) ==> e is BackendFailure),
            Self::modeled() ==> (r matches Ok(s) ==> Self::stored_dtype(&s) == dtype && Self::contents(&s).len() == size),
    ;

    /// Converts plain element data into backend storage.
    fn from_slice(data: &TensorData) -> (r: Result<Self::Storage, TensorError>)
        ensures
            Self::modeled() ==> (Self::completes(data.spec_dtype(), false) ==> r is Ok),
            Self::modeled() ==> (r matches Err(e) ==> e is BackendFailure),
            Self::modeled() ==> (r matches Ok(s) ==> Self::stored_dtype(&s) == data.spec_dtype() && Self::contents(&s) == data.values()),
            Self::from_slice_outcome(*data, r),
    ;

    /// Converts the first `num_elements` elements of backend storage, which holds `dtype`
    /// elements, back into plain data.
    fn to_vec(storage: &Self::Storage, num_elements: usize, dtype: DType) -> (r: Result<TensorData, TensorError>)
        requires
            Self::modeled() ==> (num_elements <= Self::contents(storage).len()),
            Self::modeled() ==> (Self::stored_dtype(storage) == dtype),
        ensures
            Self::modeled() ==> (Self::completes(Self::stored_dtype(storage), false) ==> r is Ok),
            Self::modeled() ==> (r matches Err(e) ==> e is BackendFailure),
            Self::modeled() ==> (r matches Ok(d) ==> d.spec_dtype() == Self::stored_dtype(storage) && d.values() == Self::contents(
                storage,
            ).take(num_elements as int)),
            Self::to_vec_outcome(*storage, num_elements, dtype, r),
    ;
}

} // verus!
