use vstd::prelude::*;
use vstd::string::*;

use super::arith::{in_range, Element, IntElement};
use super::dtype::{DType, TensorData};
use super::kernels::{
    broadcast_cols_kernel, broadcast_rows_kernel, col_sums_fit_kernel, elementwise_fits_kernel, elementwise_kernel, ints,
    matmul_fits_kernel, matmul_kernel, row_sums_fit_kernel, sum_cols_kernel, sum_rows_kernel, transpose_kernel,
};
use super::model::{
    apply_op, broadcast_cols_holds, broadcast_rows_holds, col_sum, col_sums_fit, col_sums_hold, elementwise_fits,
    elementwise_holds, lemma_cell_index, matmul_entry, matmul_fits, matmul_holds, row_sum, row_sums_fit, row_sums_hold,
    transpose_holds, unchanged_from, ElemOp,
};
use super::opts::Activation;
use super::shape::{lemma_small_products, product_fits, seq_product, Shape};
use super::tensor_error::TensorError;
use super::Backend;

verus! {

/// The host backend: buffers are plain vectors of elements and kernels run on the CPU.
/// It computes integer arithmetic exactly, on inputs whose results stay in the element type's
/// range; `Float32` arithmetic is not computed here.
pub struct CPUBackend;

proof fn lemma_values_ints(d: TensorData)
    ensures
        d matches TensorData::Float32(v) ==> d.values() == ints(v@),
        d matches TensorData::Int32(v) ==> d.values() == ints(v@),
        d matches TensorData::Int16(v) ==> d.values() == ints(v@),
{
    match d {
        TensorData::Float32(v) => assert(d.values() =~= ints(v@)),
        TensorData::Int32(v) => assert(d.values() =~= ints(v@)),
        TensorData::Int16(v) => assert(d.values() =~= ints(v@)),
    }
}

proof fn lemma_lift_unchanged<T: Element>(old: Seq<T>, new: Seq<T>, from: int)
    requires
        0 <= from,
        new.len() == old.len(),
        forall|k: int| from <= k < old.len() ==> #[trigger] new[k] == old[k],
    ensures
        unchanged_from(ints(old), ints(new), from),
{
    assert forall|k: int| from <= k < old.len() implies #[trigger] ints(new)[k] == ints(old)[k] by {
        assert(new[k] == old[k]);
    }
}

proof fn lemma_elementwise_fits<T: IntElement>(op: ElemOp, a: Seq<T>, b: Seq<T>, len: int)
    requires
        a.len() >= len,
        b.len() >= len,
        elementwise_fits(T::elem_dtype(), op, ints(a), ints(b), len),
    ensures
        forall|i: int| 0 <= i < len ==> in_range(T::elem_dtype(), #[trigger] apply_op(op, a[i].to_int(), b[i].to_int())),
{
    assert forall|i: int| 0 <= i < len implies in_range(
        T::elem_dtype(),
        #[trigger] apply_op(op, a[i].to_int(), b[i].to_int()),
    ) by {
        assert(in_range(T::elem_dtype(), apply_op(op, ints(a)[i], ints(b)[i])));
    }
}

proof fn lemma_lift_elementwise<T: IntElement>(op: ElemOp, a: Seq<T>, b: Seq<T>, d: Seq<T>, len: int)
    requires
        a.len() >= len,
        b.len() >= len,
        d.len() >= len,
        forall|i: int| 0 <= i < len ==> #[trigger] d[i].to_int() == apply_op(op, a[i].to_int(), b[i].to_int()),
    ensures
        elementwise_holds(op, ints(a), ints(b), ints(d), len),
{
    assert forall|i: int| 0 <= i < len implies #[trigger] ints(d)[i] == apply_op(op, ints(a)[i], ints(b)[i]) by {
        assert(d[i].to_int() == apply_op(op, a[i].to_int(), b[i].to_int()));
    }
}

proof fn lemma_lift_matmul<T: IntElement>(
    act: Activation,
    a: Seq<T>,
    b: Seq<T>,
    d: Seq<T>,
    m: int,
    ka: int,
    n: int,
)
    requires
        0 <= m,
        0 <= n,
        d.len() >= m * n,
        forall|i: int, j: int|
            0 <= i < m && 0 <= j < n ==> d[i * n + j].to_int() == #[trigger] matmul_entry(
                act,
                ints(a),
                ints(b),
                ka,
                n,
                i,
                j,
            ),
    ensures
        matmul_holds(act, ints(a), ints(b), ints(d), m, ka, n),
{
    assert forall|i: int, j: int| 0 <= i < m && 0 <= j < n implies ints(d)[i * n + j] == #[trigger] matmul_entry(
        act,
        ints(a),
        ints(b),
        ka,
        n,
        i,
        j,
    ) by {
        lemma_cell_index(i, j, m, n);
    }
}

proof fn lemma_lift_transpose<T: Element>(a: Seq<T>, d: Seq<T>, rows: int, cols: int)
    requires
        0 <= rows,
        0 <= cols,
        a.len() >= rows * cols,
        d.len() >= rows * cols,
        forall|i: int, j: int| 0 <= i < rows && 0 <= j < cols ==> #[trigger] d[j * rows + i] == a[i * cols + j],
    ensures
        transpose_holds(ints(a), ints(d), rows, cols),
{
    assert forall|i: int, j: int| 0 <= i < rows && 0 <= j < cols implies #[trigger] ints(d)[j * rows + i]
        == ints(a)[i * cols + j] by {
        lemma_cell_index(i, j, rows, cols);
        lemma_cell_index(j, i, cols, rows);
        assert(cols * rows == rows * cols) by (nonlinear_arith);
        assert(d[j * rows + i] == a[i * cols + j]);
    }
}

proof fn lemma_lift_broadcast_rows<T: Element>(a: Seq<T>, d: Seq<T>, rows: int, cols: int)
    requires
        0 <= rows,
        0 <= cols,
        a.len() >= rows,
        d.len() >= rows * cols,
        forall|i: int, j: int| 0 <= i < rows && 0 <= j < cols ==> #[trigger] d[i * cols + j] == a[i],
    ensures
        broadcast_rows_holds(ints(a), ints(d), rows, cols),
{
    assert forall|i: int, j: int| 0 <= i < rows && 0 <= j < cols implies #[trigger] ints(d)[i * cols + j]
        == ints(a)[i] by {
        lemma_cell_index(i, j, rows, cols);
        assert(d[i * cols + j] == a[i]);
    }
}

proof fn lemma_lift_broadcast_cols<T: Element>(a: Seq<T>, d: Seq<T>, rows: int, cols: int)
    requires
        0 <= rows,
        0 <= cols,
        a.len() >= cols,
        d.len() >= rows * cols,
        forall|i: int, j: int| 0 <= i < rows && 0 <= j < cols ==> #[trigger] d[i * cols + j] == a[j],
    ensures
        broadcast_cols_holds(ints(a), ints(d), rows, cols),
{
    assert forall|i: int, j: int| 0 <= i < rows && 0 <= j < cols implies #[trigger] ints(d)[i * cols + j]
        == ints(a)[j] by {
        lemma_cell_index(i, j, rows, cols);
        assert(d[i * cols + j] == a[j]);
    }
}

proof fn lemma_lift_row_sums<T: IntElement>(a: Seq<T>, d: Seq<T>, rows: int, cols: int)
    requires
        d.len() >= rows,
        forall|i: int| 0 <= i < rows ==> #[trigger] d[i].to_int() == row_sum(ints(a), cols, i, cols),
    ensures
        row_sums_hold(ints(a), ints(d), rows, cols),
{
    assert forall|i: int| 0 <= i < rows implies #[trigger] ints(d)[i] == row_sum(ints(a), cols, i, cols) by {
        assert(d[i].to_int() == row_sum(ints(a), cols, i, cols));
    }
}

proof fn lemma_lift_col_sums<T: IntElement>(a: Seq<T>, d: Seq<T>, rows: int, cols: int)
    requires
        d.len() >= cols,
        forall|j: int| 0 <= j < cols ==> #[trigger] d[j].to_int() == col_sum(ints(a), cols, j, rows),
    ensures
        col_sums_hold(ints(a), ints(d), rows, cols),
{
    assert forall|j: int| 0 <= j < cols implies #[trigger] ints(d)[j] == col_sum(ints(a), cols, j, rows) by {
        assert(d[j].to_int() == col_sum(ints(a), cols, j, rows));
    }
}

/// The error the CPU backend reports for `Float32` arithmetic.
fn float_arithmetic_failure() -> (e: TensorError)
    ensures
        e is BackendFailure,
{
    TensorError::BackendFailure(String::from_str("Float32 arithmetic is not computed by the CPU backend"))
}

/// Whether `op` on the first `len` element pairs of `a` and `b` stays in the range of their
/// element type: what the element-wise backend operations ask of integer data.
pub fn elementwise_in_range(op: ElemOp, a: &TensorData, b: &TensorData, len: usize) -> (r: bool)
    requires
        a.spec_dtype() == b.spec_dtype(),
        a.values().len() >= len,
        b.values().len() >= len,
    ensures
        r == (a.spec_dtype() != DType::Float32 ==> elementwise_fits(
            a.spec_dtype(),
            op,
            a.values(),
            b.values(),
            len as int,
        )),
{
    proof {
        lemma_values_ints(*a);
        lemma_values_ints(*b);
    }
    match (a, b) {
        (TensorData::Int32(av), TensorData::Int32(bv)) => elementwise_fits_kernel(op, av, bv, len),
        (TensorData::Int16(av), TensorData::Int16(bv)) => elementwise_fits_kernel(op, av, bv, len),
        _ => true,
    }
}

/// Whether the product of `a` (of `shape_a`) and `b` (of `shape_b`), computed term by term, stays
/// in the range of their element type: what the backend matrix product asks of integer data.
pub fn matmul_in_range(a: &TensorData, shape_a: Shape, b: &TensorData, shape_b: Shape) -> (r: bool)
    requires
        shape_a@.len() >= 2,
        shape_b@.len() >= 2,
        a.spec_dtype() == b.spec_dtype(),
        a.values().len() >= shape_a@[0] * shape_a@[1],
        b.values().len() >= shape_b@[0] * shape_b@[1],
        shape_a@[1] <= shape_b@[0] || shape_a@[0] == 0 || shape_b@[1] == 0,
    ensures
        r == (a.spec_dtype() != DType::Float32 ==> matmul_fits(
            a.spec_dtype(),
            a.values(),
            b.values(),
            shape_a@[0] as int,
            shape_a@[1] as int,
            shape_b@[1] as int,
        )),
{
    let m = shape_a.index(0);
    let ka = shape_a.index(1);
    let kb = shape_b.index(0);
    let n = shape_b.index(1);
    proof {
        lemma_values_ints(*a);
        lemma_values_ints(*b);
    }
    match (a, b) {
        (TensorData::Int32(av), TensorData::Int32(bv)) => matmul_fits_kernel(av, bv, m, ka, kb, n),
        (TensorData::Int16(av), TensorData::Int16(bv)) => matmul_fits_kernel(av, bv, m, ka, kb, n),
        _ => true,
    }
}

/// Whether summing the matrix `a` of `shape` over `axis` (0: each column from the top, 1: each row
/// from the left) stays in the range of its element type: what the backend axis sum asks of
/// integer data.
pub fn sum_axis_in_range(a: &TensorData, shape: Shape, axis: usize) -> (r: bool)
    requires
        shape@.len() >= 2,
        axis < 2,
        a.values().len() >= shape@[0] * shape@[1],
    ensures
        r == (a.spec_dtype() != DType::Float32 ==> (if axis == 0 {
            col_sums_fit(a.spec_dtype(), a.values(), shape@[0] as int, shape@[1] as int)
        } else {
            row_sums_fit(a.spec_dtype(), a.values(), shape@[0] as int, shape@[1] as int)
        })),
{
    let rows = shape.index(0);
    let cols = shape.index(1);
    proof {
        lemma_values_ints(*a);
    }
    match a {
        TensorData::Int32(av) => if axis == 0 {
            col_sums_fit_kernel(av, rows, cols)
        } else {
            row_sums_fit_kernel(av, rows, cols)
        },
        TensorData::Int16(av) => if axis == 0 {
            col_sums_fit_kernel(av, rows, cols)
        } else {
            row_sums_fit_kernel(av, rows, cols)
        },
        TensorData::Float32(_) => true,
    }
}

impl CPUBackend {
    /// Applies `op` element-wise to the first `product(shape)` elements.
    fn elementwise(
        op: ElemOp,
        a: &TensorData,
        b: &TensorData,
        dest: &mut TensorData,
        shape: Shape,
        dtype: DType,
    ) -> (r: Result<(), TensorError>)
        requires
            product_fits(shape@),
            a.spec_dtype() == dtype,
            b.spec_dtype() == dtype,
            old(dest).spec_dtype() == dtype,
            a.values().len() >= seq_product(shape@),
            b.values().len() >= seq_product(shape@),
            old(dest).values().len() >= seq_product(shape@),
            dtype != DType::Float32 ==> elementwise_fits(dtype, op, a.values(), b.values(), seq_product(shape@) as int),
        ensures
            final(dest).spec_dtype() == dtype,
            r is Ok <==> dtype != DType::Float32,
            r matches Err(e) ==> e is BackendFailure,
            r is Err ==> final(dest).values() == old(dest).values(),
            r is Ok ==> unchanged_from(old(dest).values(), final(dest).values(), seq_product(shape@) as int),
            r is Ok ==> elementwise_holds(
                op,
                a.values(),
                b.values(),
                final(dest).values(),
                seq_product(shape@) as int,
            ),
    {
        let len = shape.product();
        proof {
            lemma_values_ints(*a);
            lemma_values_ints(*b);
            lemma_values_ints(*old(dest));
        }
        let r = match dest {
            TensorData::Int32(dv) => {
                match (a, b) {
                    (TensorData::Int32(av), TensorData::Int32(bv)) => {
                        let ghost old_dv = dv@;
                        proof {
                            lemma_elementwise_fits(op, av@, bv@, len as int);
                        }
                        elementwise_kernel(op, av, bv, dv, len);
                        proof {
                            lemma_lift_unchanged(old_dv, dv@, len as int);
                            lemma_lift_elementwise(op, av@, bv@, dv@, len as int);
                        }
                        Ok(())
                    },
                    _ => Err(float_arithmetic_failure()),
                }
            },
            TensorData::Int16(dv) => {
                match (a, b) {
                    (TensorData::Int16(av), TensorData::Int16(bv)) => {
                        let ghost old_dv = dv@;
                        proof {
                            lemma_elementwise_fits(op, av@, bv@, len as int);
                        }
                        elementwise_kernel(op, av, bv, dv, len);
                        proof {
                            lemma_lift_unchanged(old_dv, dv@, len as int);
                            lemma_lift_elementwise(op, av@, bv@, dv@, len as int);
                        }
                        Ok(())
                    },
                    _ => Err(float_arithmetic_failure()),
                }
            },
            TensorData::Float32(_) => Err(float_arithmetic_failure()),
        };
        proof {
            lemma_values_ints(*dest);
        }
        r
    }
}

impl Backend for CPUBackend {
    type Storage = TensorData;

    open spec fn modeled() -> bool {
        true
    }

    open spec fn stored_dtype(s: &TensorData) -> DType {
        s.spec_dtype()
    }

    open spec fn contents(s: &TensorData) -> Seq<int> {
        s.values()
    }

    open spec fn completes(dtype: DType, arithmetic: bool) -> bool {
        !arithmetic || dtype != DType::Float32
    }

    fn mat_mul_inplace(
        a: &TensorData,
        shape_a: Shape,
        b: &TensorData,
        shape_b: Shape,
        dest: &mut TensorData,
        dtype: DType,
        activation: Activation,
    ) -> (r: Result<(), TensorError>)
        ensures
            r is Ok <==> dtype != DType::Float32,
    {
        let m = shape_a.index(0);
        let ka = shape_a.index(1);
        let kb = shape_b.index(0);
        let n = shape_b.index(1);
        proof {
            lemma_values_ints(*a);
            lemma_values_ints(*b);
            lemma_values_ints(*old(dest));
        }
        let r = match dest {
            TensorData::Int32(dv) => {
                match (a, b) {
                    (TensorData::Int32(av), TensorData::Int32(bv)) => {
                        let ghost old_dv = dv@;
                        matmul_kernel(av, bv, dv, m, ka, kb, n, activation);
                        proof {
                            assert(0 <= m * n) by (nonlinear_arith)
                                requires
                                    0 <= m,
                                    0 <= n,
                            ;
                            lemma_lift_unchanged(old_dv, dv@, m * n);
                            lemma_lift_matmul(activation, av@, bv@, dv@, m as int, ka as int, n as int);
                        }
                        Ok(())
                    },
                    _ => Err(float_arithmetic_failure()),
                }
            },
            TensorData::Int16(dv) => {
                match (a, b) {
                    (TensorData::Int16(av), TensorData::Int16(bv)) => {
                        let ghost old_dv = dv@;
                        matmul_kernel(av, bv, dv, m, ka, kb, n, activation);
                        proof {
                            assert(0 <= m * n) by (nonlinear_arith)
                                requires
                                    0 <= m,
                                    0 <= n,
                            ;
                            lemma_lift_unchanged(old_dv, dv@, m * n);
                            lemma_lift_matmul(activation, av@, bv@, dv@, m as int, ka as int, n as int);
                        }
                        Ok(())
                    },
                    _ => Err(float_arithmetic_failure()),
                }
            },
            TensorData::Float32(_) => Err(float_arithmetic_failure()),
        };
        proof {
            lemma_values_ints(*dest);
        }
        r
    }

    fn add_arrays_inplace(
        a: &TensorData,
        b: &TensorData,
        dest: &mut TensorData,
        shape: Shape,
        dtype: DType,
    ) -> (r: Result<(), TensorError>)
        ensures
            r is Ok <==> dtype != DType::Float32,
    {
        CPUBackend::elementwise(ElemOp::Add, a, b, dest, shape, dtype)
    }

    fn mul_arrays_inplace(
        a: &TensorData,
        b: &TensorData,
        dest: &mut TensorData,
        shape: Shape,
        dtype: DType,
    ) -> (r: Result<(), TensorError>)
        ensures
            r is Ok <==> dtype != DType::Float32,
    {
        CPUBackend::elementwise(ElemOp::Mul, a, b, dest, shape, dtype)
    }

    fn sub_arrays_inplace(
        a: &TensorData,
        b: &TensorData,
        dest: &mut TensorData,
        shape: Shape,
        dtype: DType,
    ) -> (r: Result<(), TensorError>)
        ensures
            r is Ok <==> dtype != DType::Float32,
    {
        CPUBackend::elementwise(ElemOp::Sub, a, b, dest, shape, dtype)
    }

    fn transpose_inplace(a: &TensorData, shape: Shape, dest: &mut TensorData, dtype: DType) -> (r: Result<
        (),
        TensorError,
    >)
        ensures
            r is Ok,
    {
        let rows = shape.index(0);
        let cols = shape.index(1);
        proof {
            lemma_values_ints(*a);
            lemma_values_ints(*old(dest));
            assert(0 <= rows * cols) by (nonlinear_arith)
                requires
                    0 <= rows,
                    0 <= cols,
            ;
        }
        match dest {
            TensorData::Float32(dv) => match a {
                TensorData::Float32(av) => {
                    let ghost old_dv = dv@;
                    transpose_kernel(av, dv, rows, cols);
                    proof {
                        lemma_lift_unchanged(old_dv, dv@, rows * cols);
                        lemma_lift_transpose(av@, dv@, rows as int, cols as int);
                    }
                },
                _ => {},
            },
            TensorData::Int32(dv) => match a {
                TensorData::Int32(av) => {
                    let ghost old_dv = dv@;
                    transpose_kernel(av, dv, rows, cols);
                    proof {
                        lemma_lift_unchanged(old_dv, dv@, rows * cols);
                        lemma_lift_transpose(av@, dv@, rows as int, cols as int);
                    }
                },
                _ => {},
            },
            TensorData::Int16(dv) => match a {
                TensorData::Int16(av) => {
                    let ghost old_dv = dv@;
                    transpose_kernel(av, dv, rows, cols);
                    proof {
                        lemma_lift_unchanged(old_dv, dv@, rows * cols);
                        lemma_lift_transpose(av@, dv@, rows as int, cols as int);
                    }
                },
                _ => {},
            },
        }
        proof {
            lemma_values_ints(*dest);
        }
        Ok(())
    }

    fn sum_axis_inplace(
        a: &TensorData,
        shape: Shape,
        dest: &mut TensorData,
        dtype: DType,
        axis: usize,
    ) -> (r: Result<(), TensorError>)
        ensures
            r is Ok <==> dtype != DType::Float32,
    {
        let rows = shape.index(0);
        let cols = shape.index(1);
        proof {
            lemma_values_ints(*a);
            lemma_values_ints(*old(dest));
        }
        let r = match dest {
            TensorData::Int32(dv) => match a {
                TensorData::Int32(av) => {
                    let ghost old_dv = dv@;
                    if axis == 1 {
                        sum_rows_kernel(av, dv, rows, cols);
                        proof {
                            lemma_lift_unchanged(old_dv, dv@, rows as int);
                            lemma_lift_row_sums(av@, dv@, rows as int, cols as int);
                        }
                    } else {
                        sum_cols_kernel(av, dv, rows, cols);
                        proof {
                            lemma_lift_unchanged(old_dv, dv@, cols as int);
                            lemma_lift_col_sums(av@, dv@, rows as int, cols as int);
                        }
                    }
                    Ok(())
                },
                _ => Err(float_arithmetic_failure()),
            },
            TensorData::Int16(dv) => match a {
                TensorData::Int16(av) => {
                    let ghost old_dv = dv@;
                    if axis == 1 {
                        sum_rows_kernel(av, dv, rows, cols);
                        proof {
                            lemma_lift_unchanged(old_dv, dv@, rows as int);
                            lemma_lift_row_sums(av@, dv@, rows as int, cols as int);
                        }
                    } else {
                        sum_cols_kernel(av, dv, rows, cols);
                        proof {
                            lemma_lift_unchanged(old_dv, dv@, cols as int);
                            lemma_lift_col_sums(av@, dv@, rows as int, cols as int);
                        }
                    }
                    Ok(())
                },
                _ => Err(float_arithmetic_failure()),
            },
            TensorData::Float32(_) => Err(float_arithmetic_failure()),
        };
        proof {
            lemma_values_ints(*dest);
        }
        r
    }

    fn broadcast_inplace(
        a: &TensorData,
        shape: Shape,
        dest: &mut TensorData,
        dest_shape: Shape,
        dtype: DType,
        axis: usize,
    ) -> (r: Result<(), TensorError>)
        ensures
            r is Ok,
    {
        let rows = dest_shape.index(0);
        let cols = dest_shape.index(1);
        proof {
            lemma_values_ints(*a);
            lemma_values_ints(*old(dest));
            lemma_small_products(dest_shape@);
            assert(0 <= rows * cols) by (nonlinear_arith)
                requires
                    0 <= rows,
                    0 <= cols,
            ;
        }
        match dest {
            TensorData::Float32(dv) => match a {
                TensorData::Float32(av) => {
                    let ghost old_dv = dv@;
                    if axis == 1 {
                        broadcast_rows_kernel(av, dv, rows, cols);
                        proof {
                            lemma_lift_broadcast_rows(av@, dv@, rows as int, cols as int);
                        }
                    } else {
                        broadcast_cols_kernel(av, dv, rows, cols);
                        proof {
                            lemma_lift_broadcast_cols(av@, dv@, rows as int, cols as int);
                        }
                    }
                    proof {
                        lemma_lift_unchanged(old_dv, dv@, rows * cols);
                    }
                },
                _ => {},
            },
            TensorData::Int32(dv) => match a {
                TensorData::Int32(av) => {
                    let ghost old_dv = dv@;
                    if axis == 1 {
                        broadcast_rows_kernel(av, dv, rows, cols);
                        proof {
                            lemma_lift_broadcast_rows(av@, dv@, rows as int, cols as int);
                        }
                    } else {
                        broadcast_cols_kernel(av, dv, rows, cols);
                        proof {
                            lemma_lift_broadcast_cols(av@, dv@, rows as int, cols as int);
                        }
                    }
                    proof {
                        lemma_lift_unchanged(old_dv, dv@, rows * cols);
                    }
                },
                _ => {},
            },
            TensorData::Int16(dv) => match a {
                TensorData::Int16(av) => {
                    let ghost old_dv = dv@;
                    if axis == 1 {
                        broadcast_rows_kernel(av, dv, rows, cols);
                        proof {
                            lemma_lift_broadcast_rows(av@, dv@, rows as int, cols as int);
                        }
                    } else {
                        broadcast_cols_kernel(av, dv, rows, cols);
                        proof {
                            lemma_lift_broadcast_cols(av@, dv@, rows as int, cols as int);
                        }
                    }
                    proof {
                        lemma_lift_unchanged(old_dv, dv@, rows * cols);
                    }
                },
                _ => {},
            },
        }
        proof {
            lemma_values_ints(*dest);
        }
        Ok(())
    }

    fn allocate_empty(size: usize, dtype: DType) -> (r: Result<TensorData, TensorError>)
        ensures
            r matches Ok(s) && (forall|i: int| 0 <= i < size ==> #[trigger] s.values()[i] == 0),
    {
        let d = match dtype {
            DType::Float32 => {
                let v: Vec<u32> = vec![0u32; size];
                TensorData::Float32(v)
            },
            DType::Int32 => {
                let v: Vec<i32> = vec![0i32; size];
                TensorData::Int32(v)
            },
            DType::Int16 => {
                let v: Vec<i16> = vec![0i16; size];
                TensorData::Int16(v)
            },
        };
        Ok(d)
    }

    fn from_slice(data: &TensorData) -> (r: Result<TensorData, TensorError>)
        ensures
            r is Ok,
    {
        Ok(data.duplicate())
    }

    fn to_vec(storage: &TensorData, num_elements: usize, dtype: DType) -> (r: Result<TensorData, TensorError>)
        ensures
            r is Ok,
    {
        let d = match storage {
            TensorData::Float32(v) => {
                let mut w: Vec<u32> = Vec::new();
                let mut i: usize = 0;
                while i < num_elements
                    invariant
                        num_elements <= v@.len(),
                        i <= num_elements,
                        w@ == v@.take(i as int),
                    decreases num_elements - i,
                {
                    w.push(v[i]);
                    assert(w@ =~= v@.take(i + 1));
                    i = i + 1;
                }
                assert(TensorData::Float32(w).values() =~= storage.values().take(num_elements as int));
                TensorData::Float32(w)
            },
            TensorData::Int32(v) => {
                let mut w: Vec<i32> = Vec::new();
                let mut i: usize = 0;
                while i < num_elements
                    invariant
                        num_elements <= v@.len(),
                        i <= num_elements,
                        w@ == v@.take(i as int),
                    decreases num_elements - i,
                {
                    w.push(v[i]);
                    assert(w@ =~= v@.take(i + 1));
                    i = i + 1;
                }
                assert(TensorData::Int32(w).values() =~= storage.values().take(num_elements as int));
                TensorData::Int32(w)
            },
            TensorData::Int16(v) => {
                let mut w: Vec<i16> = Vec::new();
                let mut i: usize = 0;
                while i < num_elements
                    invariant
                        num_elements <= v@.len(),
                        i <= num_elements,
                        w@ == v@.take(i as int),
                    decreases num_elements - i,
                {
                    w.push(v[i]);
                    assert(w@ =~= v@.take(i + 1));
                    i = i + 1;
                }
                assert(TensorData::Int16(w).values() =~= storage.values().take(num_elements as int));
                TensorData::Int16(w)
            },
        };
        Ok(d)
    }
}

} // verus!
