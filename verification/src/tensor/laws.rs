use vstd::prelude::*;
use vstd::arithmetic::div_mod::lemma_fundamental_div_mod;

use super::dtype::TensorData;
use super::model::{
    apply_op, broadcast_cols_holds, broadcast_rows_holds, col_sum, col_sums_hold, dot, elementwise_holds,
    matmul_entry, matmul_holds, row_sum, row_sums_hold, transpose_holds, ElemOp,
};
use super::opts::Activation;
use super::dtype::DType;
use super::shape::{spec_shape, Shape};
use super::tensor::{elementwise_error, matmul_error, reduced_len, sum_axis_into_error, Tensor};
use super::Backend;

verus! {

/// Transposing a `rows` x `cols` matrix and transposing the result gives back the matrix.
pub proof fn law_transpose_twice(a: Seq<int>, t: Seq<int>, u: Seq<int>, rows: int, cols: int)
    requires
        0 <= rows,
        0 <= cols,
        a.len() == rows * cols,
        u.len() == rows * cols,
        transpose_holds(a, t, rows, cols),
        transpose_holds(t, u, cols, rows),
    ensures
        u == a,
{
    assert forall|x: int| 0 <= x < rows * cols implies u[x] == a[x] by {
        assert(cols > 0) by (nonlinear_arith)
            requires
                0 <= x < rows * cols,
                0 <= rows,
                0 <= cols,
        ;
        let i = x / cols;
        let j = x % cols;
        lemma_fundamental_div_mod(x, cols);
        assert(0 <= j < cols);
        assert(0 <= i < rows) by (nonlinear_arith)
            requires
                x == cols * i + j,
                0 <= j < cols,
                0 <= x < rows * cols,
        ;
        assert(x == i * cols + j) by (nonlinear_arith)
            requires
                x == cols * i + j,
        ;
        assert(t[j * rows + i] == a[i * cols + j]);
        assert(u[i * cols + j] == t[j * rows + i]);
    }
    assert(u =~= a);
}

proof fn lemma_col_sum_transposed(a: Seq<int>, t: Seq<int>, rows: int, cols: int, j: int, s: int)
    requires
        transpose_holds(a, t, rows, cols),
        0 <= j < cols,
        0 <= s <= rows,
    ensures
        col_sum(a, cols, j, s) == row_sum(t, rows, j, s),
    decreases s,
{
    if s > 0 {
        lemma_col_sum_transposed(a, t, rows, cols, j, s - 1);
        assert(t[j * rows + (s - 1)] == a[(s - 1) * cols + j]);
    }
}

/// Summing a matrix over axis 0 gives what summing its transpose over axis 1 gives.
pub proof fn law_sum_axis_of_transpose(
    a: Seq<int>,
    t: Seq<int>,
    col_sums: Seq<int>,
    row_sums: Seq<int>,
    rows: int,
    cols: int,
)
    requires
        0 <= rows,
        transpose_holds(a, t, rows, cols),
        col_sums_hold(a, col_sums, rows, cols),
        row_sums_hold(t, row_sums, cols, rows),
    ensures
        forall|j: int| 0 <= j < cols ==> #[trigger] col_sums[j] == row_sums[j],
{
    assert forall|j: int| 0 <= j < cols implies #[trigger] col_sums[j] == row_sums[j] by {
        lemma_col_sum_transposed(a, t, rows, cols, j, rows);
    }
}

proof fn lemma_col_sum_of_copies(v: Seq<int>, b: Seq<int>, rows: int, cols: int, j: int, s: int)
    requires
        broadcast_cols_holds(v, b, rows, cols),
        0 <= j < cols,
        0 <= s <= rows,
    ensures
        col_sum(b, cols, j, s) == s * v[j],
    decreases s,
{
    if s > 0 {
        lemma_col_sum_of_copies(v, b, rows, cols, j, s - 1);
        assert(b[(s - 1) * cols + j] == v[j]);
        assert((s - 1) * v[j] + v[j] == s * v[j]) by (nonlinear_arith);
    }
}

proof fn lemma_row_sum_of_copies(v: Seq<int>, b: Seq<int>, rows: int, cols: int, i: int, s: int)
    requires
        broadcast_rows_holds(v, b, rows, cols),
        0 <= i < rows,
        0 <= s <= cols,
    ensures
        row_sum(b, cols, i, s) == s * v[i],
    decreases s,
{
    if s > 0 {
        lemma_row_sum_of_copies(v, b, rows, cols, i, s - 1);
        assert(b[i * cols + (s - 1)] == v[i]);
        assert((s - 1) * v[i] + v[i] == s * v[i]) by (nonlinear_arith);
    }
}

/// Broadcasting a vector into `rows` copies (axis 0) and summing over axis 0 gives each element
/// times `rows`.
pub proof fn law_broadcast_then_sum_columns(
    v: Seq<int>,
    b: Seq<int>,
    sums: Seq<int>,
    rows: int,
    cols: int,
)
    requires
        broadcast_cols_holds(v, b, rows, cols),
        col_sums_hold(b, sums, rows, cols),
        0 <= rows,
    ensures
        forall|j: int| 0 <= j < cols ==> #[trigger] sums[j] == rows * v[j],
{
    assert forall|j: int| 0 <= j < cols implies #[trigger] sums[j] == rows * v[j] by {
        lemma_col_sum_of_copies(v, b, rows, cols, j, rows);
    }
}

/// Broadcasting a vector along axis 1 (row `i` filled with element `i`) and summing over axis 1
/// gives each element times `cols`.
pub proof fn law_broadcast_then_sum_rows(
    v: Seq<int>,
    b: Seq<int>,
    sums: Seq<int>,
    rows: int,
    cols: int,
)
    requires
        broadcast_rows_holds(v, b, rows, cols),
        row_sums_hold(b, sums, rows, cols),
        0 <= cols,
    ensures
        forall|i: int| 0 <= i < rows ==> #[trigger] sums[i] == cols * v[i],
{
    assert forall|i: int| 0 <= i < rows implies #[trigger] sums[i] == cols * v[i] by {
        lemma_row_sum_of_copies(v, b, rows, cols, i, cols);
    }
}

/// Element-wise addition and multiplication do not depend on the order of the operands.
pub proof fn law_elementwise_commutes(
    op: ElemOp,
    a: Seq<int>,
    b: Seq<int>,
    ab: Seq<int>,
    ba: Seq<int>,
    len: int,
)
    requires
        op == ElemOp::Add || op == ElemOp::Mul,
        elementwise_holds(op, a, b, ab, len),
        elementwise_holds(op, b, a, ba, len),
    ensures
        forall|i: int| 0 <= i < len ==> #[trigger] ab[i] == ba[i],
{
    assert forall|i: int| 0 <= i < len implies #[trigger] ab[i] == ba[i] by {
        assert(ab[i] == apply_op(op, a[i], b[i]));
        assert(ba[i] == apply_op(op, b[i], a[i]));
        assert(a[i] * b[i] == b[i] * a[i]) by (nonlinear_arith);
    }
}

/// Subtracting `b` and then adding `b` back gives back the first operand.
pub proof fn law_sub_then_add(a: Seq<int>, b: Seq<int>, diff: Seq<int>, back: Seq<int>, len: int)
    requires
        elementwise_holds(ElemOp::Sub, a, b, diff, len),
        elementwise_holds(ElemOp::Add, diff, b, back, len),
    ensures
        forall|i: int| 0 <= i < len ==> #[trigger] back[i] == a[i],
{
    assert forall|i: int| 0 <= i < len implies #[trigger] back[i] == a[i] by {
        assert(diff[i] == a[i] - b[i]);
        assert(back[i] == diff[i] + b[i]);
    }
}

proof fn lemma_dot_transposed(
    a: Seq<int>,
    b: Seq<int>,
    at: Seq<int>,
    bt: Seq<int>,
    m: int,
    k: int,
    n: int,
    i: int,
    j: int,
    s: int,
)
    requires
        transpose_holds(a, at, m, k),
        transpose_holds(b, bt, k, n),
        0 <= i < m,
        0 <= j < n,
        0 <= s <= k,
    ensures
        dot(bt, at, j, i, k, m, s) == dot(a, b, i, j, k, n, s),
    decreases s,
{
    if s > 0 {
        lemma_dot_transposed(a, b, at, bt, m, k, n, i, j, s - 1);
        let x = a[i * k + (s - 1)];
        let y = b[(s - 1) * n + j];
        assert(at[(s - 1) * m + i] == x);
        assert(bt[j * k + (s - 1)] == y);
        assert(y * x == x * y) by (nonlinear_arith);
    }
}

/// The transpose of a matrix product is the product of the transposes in the opposite order:
/// (A B)^T = B^T A^T, for either activation.
pub proof fn law_matmul_transpose(
    act: Activation,
    a: Seq<int>,
    b: Seq<int>,
    c: Seq<int>,
    at: Seq<int>,
    bt: Seq<int>,
    ct: Seq<int>,
    d: Seq<int>,
    m: int,
    k: int,
    n: int,
)
    requires
        0 <= k,
        matmul_holds(act, a, b, c, m, k, n),
        transpose_holds(a, at, m, k),
        transpose_holds(b, bt, k, n),
        transpose_holds(c, ct, m, n),
        matmul_holds(act, bt, at, d, n, k, m),
    ensures
        forall|j: int, i: int| 0 <= j < n && 0 <= i < m ==> #[trigger] ct[j * m + i] == d[j * m + i],
{
    assert forall|j: int, i: int| 0 <= j < n && 0 <= i < m implies #[trigger] ct[j * m + i] == d[j * m + i] by {
        lemma_dot_transposed(a, b, at, bt, m, k, n, i, j, k);
        assert(ct[j * m + i] == c[i * n + j]);
        assert(c[i * n + j] == matmul_entry(act, a, b, k, n, i, j));
        assert(d[j * m + i] == matmul_entry(act, bt, at, k, m, j, i));
    }
}

/// With the ReLU activation every entry of a matrix product is non-negative.
pub proof fn law_relu_nonnegative(a: Seq<int>, b: Seq<int>, d: Seq<int>, m: int, k: int, n: int)
    requires
        matmul_holds(Activation::ReLU, a, b, d, m, k, n),
    ensures
        forall|i: int, j: int| 0 <= i < m && 0 <= j < n ==> #[trigger] d[i * n + j] >= 0,
{
    assert forall|i: int, j: int| 0 <= i < m && 0 <= j < n implies #[trigger] d[i * n + j] >= 0 by {
        assert(d[i * n + j] == matmul_entry(Activation::ReLU, a, b, k, n, i, j));
    }
}

/// Reading a tensor back with `to_vec` gives the data it was made from with `new`.
pub proof fn law_new_then_to_vec<B: Backend>(data: TensorData, t: Tensor<B>, out: TensorData)
    requires
        t.dtype_spec() == data.spec_dtype(),
        t.values() == data.values(),
        out.spec_dtype() == t.dtype_spec(),
        out.values() == t.values(),
    ensures
        out.spec_dtype() == data.spec_dtype(),
        out.values() == data.values(),
{
}

/// An element-wise operation passes validation exactly when both operands and the destination
/// have one shape and one element type.
pub proof fn law_elementwise_validation(
    a_shape: Shape,
    a_dtype: DType,
    b_shape: Shape,
    b_dtype: DType,
    d_shape: Shape,
    d_dtype: DType,
)
    ensures
        elementwise_error(a_shape, a_dtype, b_shape, b_dtype, d_shape, d_dtype) is None <==> (a_shape == b_shape
            && d_shape == a_shape && a_dtype == b_dtype && d_dtype == a_dtype),
{
}

/// A matrix product passes validation exactly when both operands are matrices whose inner sizes
/// agree, the destination is `rows(a)` x `cols(b)`, and all three share one element type.
pub proof fn law_matmul_validation(
    a_shape: Shape,
    a_dtype: DType,
    b_shape: Shape,
    b_dtype: DType,
    d_shape: Shape,
    d_dtype: DType,
)
    requires
        d_shape.well_formed(),
    ensures
        matmul_error(a_shape, a_dtype, b_shape, b_dtype, d_shape, d_dtype) is None <==> {
            &&& a_shape@.len() == 2
            &&& b_shape@.len() == 2
            &&& a_shape@[1] == b_shape@[0]
            &&& d_shape@ == seq![a_shape@[0], b_shape@[1]]
            &&& a_dtype == b_dtype
            &&& d_dtype == a_dtype
        },
{
    if a_shape@.len() == 2 && b_shape@.len() == 2 && d_shape@.len() == 2 {
        let want = spec_shape(seq![a_shape@[0], b_shape@[1]]);
        Shape::lemma_spec_shape_view(seq![a_shape@[0], b_shape@[1]]);
        assert(seq![a_shape@[0], b_shape@[1]].take(2) =~= seq![a_shape@[0], b_shape@[1]]);
        Shape::lemma_eq_iff_view_eq(d_shape, want);
    }
}

/// A sum over an axis passes validation exactly when the operand is a matrix, the axis is 0 or 1,
/// and the destination is a vector as long as a row (axis 0) or a column (axis 1), of the
/// operand's element type.
pub proof fn law_sum_axis_validation(a_shape: Shape, a_dtype: DType, axis: usize, d_shape: Shape, d_dtype: DType)
    requires
        d_shape.well_formed(),
    ensures
        sum_axis_into_error(a_shape, a_dtype, axis, d_shape, d_dtype) is None <==> {
            &&& a_shape@.len() == 2
            &&& axis < 2
            &&& d_shape@ == seq![if axis == 0 { a_shape@[1] } else { a_shape@[0] }]
            &&& d_dtype == a_dtype
        },
{
    if a_shape@.len() == 2 && axis < 2 {
        let n = reduced_len(a_shape@, axis);
        Shape::lemma_spec_shape_view(seq![n]);
        assert(seq![n].take(1) =~= seq![n]);
        Shape::lemma_eq_iff_view_eq(d_shape, spec_shape(seq![n]));
    }
}

} // verus!
