use vstd::prelude::*;

use super::arith::in_range;
use super::dtype::DType;
use super::opts::Activation;

verus! {

/// An element-wise arithmetic operation.
#[derive(Debug, Clone, Copy, PartialEq, Eq, Structural)]
pub enum ElemOp {
    Add,
    Sub,
    Mul,
}

/// The result of `op` on `x` and `y`.
pub open spec fn apply_op(op: ElemOp, x: int, y: int) -> int {
    match op {
        ElemOp::Add => x + y,
        ElemOp::Sub => x - y,
        ElemOp::Mul => x * y,
    }
}

/// The activation applied to one output value.
pub open spec fn activate(act: Activation, v: int) -> int {
    match act {
        Activation::Linear => v,
        Activation::ReLU => if v < 0 { 0 } else { v },
    }
}

/// Term `t` of the dot product of row `i` of the row-major matrix `a` (with `ka` columns) and
/// column `j` of the row-major matrix `b` (with `n` columns).
pub open spec fn term(a: Seq<int>, b: Seq<int>, i: int, j: int, ka: int, n: int, t: int) -> int {
    a[i * ka + t] * b[t * n + j]
}

/// The sum of the first `t` terms of the dot product of row `i` of `a` and column `j` of `b`.
pub open spec fn dot(a: Seq<int>, b: Seq<int>, i: int, j: int, ka: int, n: int, t: int) -> int
    decreases t,
{
    if t <= 0 {
        0
    } else {
        dot(a, b, i, j, ka, n, t - 1) + term(a, b, i, j, ka, n, t - 1)
    }
}

/// Entry (`i`, `j`) of the product of `a` (`ka` columns) and `b` (`n` columns), passed through `act`.
pub open spec fn matmul_entry(act: Activation, a: Seq<int>, b: Seq<int>, ka: int, n: int, i: int, j: int) -> int {
    activate(act, dot(a, b, i, j, ka, n, ka))
}

/// The sum of the first `t` entries of row `i` of the row-major matrix `a` with `cols` columns.
pub open spec fn row_sum(a: Seq<int>, cols: int, i: int, t: int) -> int
    decreases t,
{
    if t <= 0 {
        0
    } else {
        row_sum(a, cols, i, t - 1) + a[i * cols + (t - 1)]
    }
}

/// The sum of the first `t` entries of column `j` of the row-major matrix `a` with `cols` columns.
pub open spec fn col_sum(a: Seq<int>, cols: int, j: int, t: int) -> int
    decreases t,
{
    if t <= 0 {
        0
    } else {
        col_sum(a, cols, j, t - 1) + a[(t - 1) * cols + j]
    }
}

/// Row-major position `i * cols + j` lies below `rows * cols` for every cell of the matrix.
pub proof fn lemma_cell_index(i: int, j: int, rows: int, cols: int)
    requires
        0 <= i < rows,
        0 <= j < cols,
    ensures
        0 <= i * cols + j < rows * cols,
        i * cols + j + 1 <= rows * cols,
        i * cols + cols <= rows * cols,
        0 <= i * cols,
{
    assert(0 <= i * cols) by (nonlinear_arith)
        requires
            0 <= i,
            0 <= j < cols,
    ;
    assert(i * cols + cols <= rows * cols) by (nonlinear_arith)
        requires
            0 <= i < rows,
            0 <= j < cols,
    ;
}

/// Cells visited earlier in row-major order sit at smaller positions.
pub proof fn lemma_cell_order(i1: int, j1: int, i2: int, j2: int, cols: int)
    requires
        0 <= j1 < cols,
        0 <= j2 < cols,
        0 <= i1,
        0 <= i2,
        i1 < i2 || (i1 == i2 && j1 < j2),
    ensures
        i1 * cols + j1 < i2 * cols + j2,
{
    if i1 < i2 {
        assert(i1 * cols + cols <= i2 * cols) by (nonlinear_arith)
            requires
                i1 < i2,
                0 <= cols,
        ;
    }
}

/// Distinct cells of a matrix sit at distinct row-major positions.
pub proof fn lemma_cell_distinct(i1: int, j1: int, i2: int, j2: int, cols: int)
    requires
        0 <= j1 < cols,
        0 <= j2 < cols,
        0 <= i1,
        0 <= i2,
        i1 != i2 || j1 != j2,
    ensures
        i1 * cols + j1 != i2 * cols + j2,
{
    if i1 < i2 || (i1 == i2 && j1 < j2) {
        lemma_cell_order(i1, j1, i2, j2, cols);
    } else {
        lemma_cell_order(i2, j2, i1, j1, cols);
    }
}

/// Computing `op` on the first `len` element pairs of `a` and `b` stays in the range of `dt`.
pub open spec fn elementwise_fits(dt: DType, op: ElemOp, a: Seq<int>, b: Seq<int>, len: int) -> bool {
    forall|i: int| 0 <= i < len ==> in_range(dt, #[trigger] apply_op(op, a[i], b[i]))
}

/// `d` holds `op` applied to the first `len` element pairs of `a` and `b`.
pub open spec fn elementwise_holds(op: ElemOp, a: Seq<int>, b: Seq<int>, d: Seq<int>, len: int) -> bool {
    forall|i: int| 0 <= i < len ==> #[trigger] d[i] == apply_op(op, a[i], b[i])
}

/// Computing the product of the `m` x `ka` matrix `a` and the matrix `b` with `n` columns term by
/// term, every term and every partial sum stays in the range of `dt`.
pub open spec fn matmul_fits(dt: DType, a: Seq<int>, b: Seq<int>, m: int, ka: int, n: int) -> bool {
    &&& forall|i: int, j: int, t: int|
        0 <= i < m && 0 <= j < n && 0 <= t < ka ==> in_range(dt, #[trigger] term(a, b, i, j, ka, n, t))
    &&& forall|i: int, j: int, t: int|
        0 <= i < m && 0 <= j < n && 1 <= t <= ka ==> in_range(dt, #[trigger] dot(a, b, i, j, ka, n, t))
}

/// `d` holds the activated product of the `m` x `ka` matrix `a` and the matrix `b` with `n` columns.
pub open spec fn matmul_holds(act: Activation, a: Seq<int>, b: Seq<int>, d: Seq<int>, m: int, ka: int, n: int) -> bool {
    forall|i: int, j: int|
        0 <= i < m && 0 <= j < n ==> d[i * n + j] == #[trigger] matmul_entry(act, a, b, ka, n, i, j)
}

/// `d` holds the transpose of the `rows` x `cols` row-major matrix `a`.
pub open spec fn transpose_holds(a: Seq<int>, d: Seq<int>, rows: int, cols: int) -> bool {
    forall|i: int, j: int| 0 <= i < rows && 0 <= j < cols ==> #[trigger] d[j * rows + i] == a[i * cols + j]
}

/// Summing each row of the `rows` x `cols` matrix `a` from left to right stays in the range of `dt`.
pub open spec fn row_sums_fit(dt: DType, a: Seq<int>, rows: int, cols: int) -> bool {
    forall|i: int, t: int| 0 <= i < rows && 1 <= t <= cols ==> in_range(dt, #[trigger] row_sum(a, cols, i, t))
}

/// Summing each column of the `rows` x `cols` matrix `a` from the top stays in the range of `dt`.
pub open spec fn col_sums_fit(dt: DType, a: Seq<int>, rows: int, cols: int) -> bool {
    forall|j: int, t: int| 0 <= j < cols && 1 <= t <= rows ==> in_range(dt, #[trigger] col_sum(a, cols, j, t))
}

/// `d` holds the sum of each row of the `rows` x `cols` matrix `a`.
pub open spec fn row_sums_hold(a: Seq<int>, d: Seq<int>, rows: int, cols: int) -> bool {
    forall|i: int| 0 <= i < rows ==> #[trigger] d[i] == row_sum(a, cols, i, cols)
}

/// `d` holds the sum of each column of the `rows` x `cols` matrix `a`.
pub open spec fn col_sums_hold(a: Seq<int>, d: Seq<int>, rows: int, cols: int) -> bool {
    forall|j: int| 0 <= j < cols ==> #[trigger] d[j] == col_sum(a, cols, j, rows)
}

/// Row `i` of the `rows` x `cols` matrix `d` is filled with `a[i]`.
pub open spec fn broadcast_rows_holds(a: Seq<int>, d: Seq<int>, rows: int, cols: int) -> bool {
    forall|i: int, j: int| 0 <= i < rows && 0 <= j < cols ==> #[trigger] d[i * cols + j] == a[i]
}

/// Every row of the `rows` x `cols` matrix `d` is a copy of the first `cols` entries of `a`.
pub open spec fn broadcast_cols_holds(a: Seq<int>, d: Seq<int>, rows: int, cols: int) -> bool {
    forall|i: int, j: int| 0 <= i < rows && 0 <= j < cols ==> #[trigger] d[i * cols + j] == a[j]
}

/// `new` has the length of `old` and agrees with it from position `from` on.
pub open spec fn unchanged_from(old: Seq<int>, new: Seq<int>, from: int) -> bool {
    &&& new.len() == old.len()
    &&& forall|k: int| from <= k < old.len() ==> #[trigger] new[k] == old[k]
}

} // verus!
