use vstd::prelude::*;

use super::arith::{half_modulus, in_range, Element, IntElement};
use super::model::{
    apply_op, col_sum, col_sums_fit, dot, lemma_cell_distinct, lemma_cell_index, lemma_cell_order, matmul_entry,
    elementwise_fits, matmul_fits, row_sum, row_sums_fit, term, ElemOp,
};
use super::opts::Activation;

verus! {

/// The values of a sequence of integer elements.
pub open spec fn ints<T: Element>(s: Seq<T>) -> Seq<int> {
    s.map_values(|x: T| x.to_int())
}

/// Applies `op` to the first `len` element pairs of `a` and `b`, writing into `dest`.
pub fn elementwise_kernel<T: IntElement>(op: ElemOp, a: &Vec<T>, b: &Vec<T>, dest: &mut Vec<T>, len: usize)
    requires
        a@.len() >= len,
        b@.len() >= len,
        old(dest)@.len() >= len,
        forall|i: int|
            0 <= i < len ==> in_range(T::elem_dtype(), #[trigger] apply_op(op, a@[i].to_int(), b@[i].to_int())),
    ensures
        final(dest)@.len() == old(dest)@.len(),
        forall|i: int| 0 <= i < len ==> #[trigger] final(dest)@[i].to_int() == apply_op(op, a@[i].to_int(), b@[i].to_int()),
        forall|i: int| len <= i < old(dest)@.len() ==> #[trigger] final(dest)@[i] == old(dest)@[i],
{
    let mut i: usize = 0;
    while i < len
        invariant
            a@.len() >= len,
            b@.len() >= len,
            dest@.len() == old(dest)@.len(),
            dest@.len() >= len,
            i <= len,
            forall|k: int|
                0 <= k < len ==> in_range(T::elem_dtype(), #[trigger] apply_op(op, a@[k].to_int(), b@[k].to_int())),
            forall|k: int| 0 <= k < i ==> #[trigger] dest@[k].to_int() == apply_op(op, a@[k].to_int(), b@[k].to_int()),
            forall|k: int| i <= k < old(dest)@.len() ==> #[trigger] dest@[k] == old(dest)@[k],
        decreases len - i,
    {
        let x = a[i];
        let y = b[i];
        assert(in_range(T::elem_dtype(), apply_op(op, a@[i as int].to_int(), b@[i as int].to_int())));
        let v = match op {
            ElemOp::Add => x.plus(y),
            ElemOp::Sub => x.minus(y),
            ElemOp::Mul => x.times(y),
        };
        dest[i] = v;
        i = i + 1;
    }
}

/// Writes the transpose of the `rows` x `cols` row-major matrix in `a` into `dest`.
pub fn transpose_kernel<T: Copy>(a: &Vec<T>, dest: &mut Vec<T>, rows: usize, cols: usize)
    requires
        a@.len() >= rows * cols,
        old(dest)@.len() >= rows * cols,
    ensures
        final(dest)@.len() == old(dest)@.len(),
        forall|i: int, j: int|
            0 <= i < rows && 0 <= j < cols ==> #[trigger] final(dest)@[j * rows + i] == a@[i * cols + j],
        forall|k: int| rows * cols <= k < old(dest)@.len() ==> #[trigger] final(dest)@[k] == old(dest)@[k],
{
    let _ = a.len();
    let mut i: usize = 0;
    while i < rows
        invariant
            rows * cols <= usize::MAX,
            a@.len() >= rows * cols,
            dest@.len() == old(dest)@.len(),
            dest@.len() >= rows * cols,
            i <= rows,
            forall|ii: int, jj: int|
                0 <= ii < i && 0 <= jj < cols ==> #[trigger] dest@[jj * rows + ii] == a@[ii * cols + jj],
            forall|k: int| rows * cols <= k < old(dest)@.len() ==> #[trigger] dest@[k] == old(dest)@[k],
        decreases rows - i,
    {
        let mut j: usize = 0;
        while j < cols
            invariant
                rows * cols <= usize::MAX,
                a@.len() >= rows * cols,
                dest@.len() == old(dest)@.len(),
                dest@.len() >= rows * cols,
                i < rows,
                j <= cols,
                forall|ii: int, jj: int|
                    (0 <= ii < i && 0 <= jj < cols) || (ii == i && 0 <= jj < j)
                        ==> #[trigger] dest@[jj * rows + ii] == a@[ii * cols + jj],
                forall|k: int| rows * cols <= k < old(dest)@.len() ==> #[trigger] dest@[k] == old(dest)@[k],
            decreases cols - j,
        {
            proof {
                lemma_cell_index(i as int, j as int, rows as int, cols as int);
                lemma_cell_index(j as int, i as int, cols as int, rows as int);
                assert((j * rows) as int == j as int * rows as int);
            }
            let src = i * cols + j;
            let dst = j * rows + i;
            let ghost before = dest@;
            dest[dst] = a[src];
            proof {
                assert forall|ii: int, jj: int|
                    (0 <= ii < i && 0 <= jj < cols) || (ii == i && 0 <= jj < j + 1)
                        implies #[trigger] dest@[jj * rows + ii] == a@[ii * cols + jj] by {
                    if ii != i || jj != j {
                        lemma_cell_distinct(jj, ii, j as int, i as int, rows as int);
                        lemma_cell_index(jj, ii, cols as int, rows as int);
                        assert(cols * rows == rows * cols) by (nonlinear_arith);
                        assert(dest@[jj * rows + ii] == before[jj * rows + ii]);
                    }
                }
            }
            j = j + 1;
        }
        i = i + 1;
    }
}

/// Writes the product of the `m` x `ka` matrix in `a` and the `kb` x `n` matrix in `b`
/// (of which the first `ka` rows are used) into `dest`, each entry passed through `act`.
pub fn matmul_kernel<T: IntElement>(
    a: &Vec<T>,
    b: &Vec<T>,
    dest: &mut Vec<T>,
    m: usize,
    ka: usize,
    kb: usize,
    n: usize,
    act: Activation,
)
    requires
        a@.len() >= m * ka,
        b@.len() >= kb * n,
        old(dest)@.len() >= m * n,
        ka <= kb || m == 0 || n == 0,
        matmul_fits(T::elem_dtype(), ints(a@), ints(b@), m as int, ka as int, n as int),
    ensures
        final(dest)@.len() == old(dest)@.len(),
        forall|i: int, j: int|
            0 <= i < m && 0 <= j < n ==> final(dest)@[i * n + j].to_int() == #[trigger] matmul_entry(
                act,
                ints(a@),
                ints(b@),
                ka as int,
                n as int,
                i,
                j,
            ),
        forall|k: int| m * n <= k < old(dest)@.len() ==> #[trigger] final(dest)@[k] == old(dest)@[k],
{
    let ghost dt = T::elem_dtype();
    let ghost ia = ints(a@);
    let ghost ib = ints(b@);
    let _ = a.len();
    let _ = b.len();
    let _ = dest.len();
    let mut i: usize = 0;
    while i < m
        invariant
            m * ka <= usize::MAX,
            kb * n <= usize::MAX,
            m * n <= usize::MAX,
            a@.len() >= m * ka,
            b@.len() >= kb * n,
            dest@.len() == old(dest)@.len(),
            dest@.len() >= m * n,
            ka <= kb || m == 0 || n == 0,
            dt == T::elem_dtype(),
            ia == ints(a@),
            ib == ints(b@),
            matmul_fits(dt, ia, ib, m as int, ka as int, n as int),
            i <= m,
            forall|ii: int, jj: int|
                0 <= ii < i && 0 <= jj < n ==> dest@[ii * n + jj].to_int() == #[trigger] matmul_entry(
                    act,
                    ia,
                    ib,
                    ka as int,
                    n as int,
                    ii,
                    jj,
                ),
            forall|k: int| i * n <= k < old(dest)@.len() ==> #[trigger] dest@[k] == old(dest)@[k],
        decreases m - i,
    {
        let mut j: usize = 0;
        while j < n
            invariant
                m * ka <= usize::MAX,
                kb * n <= usize::MAX,
                m * n <= usize::MAX,
                a@.len() >= m * ka,
                b@.len() >= kb * n,
                dest@.len() == old(dest)@.len(),
                dest@.len() >= m * n,
                ka <= kb || n == 0,
                dt == T::elem_dtype(),
                ia == ints(a@),
                ib == ints(b@),
                matmul_fits(dt, ia, ib, m as int, ka as int, n as int),
                i < m,
                j <= n,
                forall|ii: int, jj: int|
                    (0 <= ii < i && 0 <= jj < n) || (ii == i && 0 <= jj < j) ==> dest@[ii * n + jj].to_int()
                        == #[trigger] matmul_entry(act, ia, ib, ka as int, n as int, ii, jj),
                forall|k: int| i * n + j <= k < old(dest)@.len() ==> #[trigger] dest@[k] == old(dest)@[k],
            decreases n - j,
        {
            let mut sum = T::zero();
            let mut t: usize = 0;
            while t < ka
                invariant
                    m * ka <= usize::MAX,
                    kb * n <= usize::MAX,
                    a@.len() >= m * ka,
                    b@.len() >= kb * n,
                    ka <= kb,
                    dt == T::elem_dtype(),
                    ia == ints(a@),
                    ib == ints(b@),
                    matmul_fits(dt, ia, ib, m as int, ka as int, n as int),
                    i < m,
                    j < n,
                    t <= ka,
                    sum.to_int() == dot(ia, ib, i as int, j as int, ka as int, n as int, t as int),
                decreases ka - t,
            {
                proof {
                    lemma_cell_index(i as int, t as int, m as int, ka as int);
                    lemma_cell_index(t as int, j as int, kb as int, n as int);
                }
                let x = a[i * ka + t];
                let y = b[t * n + j];
                proof {
                    assert(ia[i * ka + t] == x.to_int());
                    assert(ib[t * n + j] == y.to_int());
                    assert(in_range(dt, term(ia, ib, i as int, j as int, ka as int, n as int, t as int)));
                    assert(in_range(dt, dot(ia, ib, i as int, j as int, ka as int, n as int, t + 1)));
                }
                let p = x.times(y);
                sum = sum.plus(p);
                t = t + 1;
            }
            let v = match act {
                Activation::Linear => sum,
                Activation::ReLU => sum.relu(),
            };
            proof {
                lemma_cell_index(i as int, j as int, m as int, n as int);
            }
            let ghost before = dest@;
            dest[i * n + j] = v;
            proof {
                assert(v.to_int() == matmul_entry(act, ia, ib, ka as int, n as int, i as int, j as int));
                assert forall|ii: int, jj: int|
                    (0 <= ii < i && 0 <= jj < n) || (ii == i && 0 <= jj < j + 1) implies dest@[ii * n + jj].to_int()
                        == #[trigger] matmul_entry(act, ia, ib, ka as int, n as int, ii, jj) by {
                    if ii != i || jj != j {
                        lemma_cell_order(ii, jj, i as int, j as int, n as int);
                        assert(dest@[ii * n + jj] == before[ii * n + jj]);
                    }
                }
            }
            j = j + 1;
        }
        proof {
            assert((i + 1) * n == i * n + n) by (nonlinear_arith);
        }
        i = i + 1;
    }
}

/// Writes the sum of each row of the `rows` x `cols` matrix in `a` into `dest`.
pub fn sum_rows_kernel<T: IntElement>(a: &Vec<T>, dest: &mut Vec<T>, rows: usize, cols: usize)
    requires
        a@.len() >= rows * cols,
        old(dest)@.len() >= rows,
        row_sums_fit(T::elem_dtype(), ints(a@), rows as int, cols as int),
    ensures
        final(dest)@.len() == old(dest)@.len(),
        forall|i: int| 0 <= i < rows ==> #[trigger] final(dest)@[i].to_int() == row_sum(ints(a@), cols as int, i, cols as int),
        forall|k: int| rows <= k < old(dest)@.len() ==> #[trigger] final(dest)@[k] == old(dest)@[k],
{
    let ghost dt = T::elem_dtype();
    let ghost ia = ints(a@);
    let _ = a.len();
    let mut i: usize = 0;
    while i < rows
        invariant
            rows * cols <= usize::MAX,
            a@.len() >= rows * cols,
            dest@.len() == old(dest)@.len(),
            dest@.len() >= rows,
            dt == T::elem_dtype(),
            ia == ints(a@),
            row_sums_fit(dt, ia, rows as int, cols as int),
            i <= rows,
            forall|ii: int| 0 <= ii < i ==> #[trigger] dest@[ii].to_int() == row_sum(ia, cols as int, ii, cols as int),
            forall|k: int| i <= k < old(dest)@.len() ==> #[trigger] dest@[k] == old(dest)@[k],
        decreases rows - i,
    {
        let mut sum = T::zero();
        let mut j: usize = 0;
        while j < cols
            invariant
                rows * cols <= usize::MAX,
                a@.len() >= rows * cols,
                dt == T::elem_dtype(),
                ia == ints(a@),
                row_sums_fit(dt, ia, rows as int, cols as int),
                i < rows,
                j <= cols,
                sum.to_int() == row_sum(ia, cols as int, i as int, j as int),
            decreases cols - j,
        {
            proof {
                lemma_cell_index(i as int, j as int, rows as int, cols as int);
            }
            let x = a[i * cols + j];
            proof {
                assert(ia[i * cols + j] == x.to_int());
                assert(in_range(dt, row_sum(ia, cols as int, i as int, j + 1)));
            }
            sum = sum.plus(x);
            j = j + 1;
        }
        dest[i] = sum;
        i = i + 1;
    }
}

/// Writes the sum of each column of the `rows` x `cols` matrix in `a` into `dest`.
pub fn sum_cols_kernel<T: IntElement>(a: &Vec<T>, dest: &mut Vec<T>, rows: usize, cols: usize)
    requires
        a@.len() >= rows * cols,
        old(dest)@.len() >= cols,
        col_sums_fit(T::elem_dtype(), ints(a@), rows as int, cols as int),
    ensures
        final(dest)@.len() == old(dest)@.len(),
        forall|j: int| 0 <= j < cols ==> #[trigger] final(dest)@[j].to_int() == col_sum(ints(a@), cols as int, j, rows as int),
        forall|k: int| cols <= k < old(dest)@.len() ==> #[trigger] final(dest)@[k] == old(dest)@[k],
{
    let ghost dt = T::elem_dtype();
    let ghost ia = ints(a@);
    let _ = a.len();
    let mut j: usize = 0;
    while j < cols
        invariant
            dest@.len() == old(dest)@.len(),
            dest@.len() >= cols,
            j <= cols,
            forall|jj: int| 0 <= jj < j ==> #[trigger] dest@[jj].to_int() == 0,
            forall|k: int| j <= k < old(dest)@.len() ==> #[trigger] dest@[k] == old(dest)@[k],
        decreases cols - j,
    {
        dest[j] = T::zero();
        j = j + 1;
    }
    let mut i: usize = 0;
    while i < rows
        invariant
            rows * cols <= usize::MAX,
            a@.len() >= rows * cols,
            dest@.len() == old(dest)@.len(),
            dest@.len() >= cols,
            dt == T::elem_dtype(),
            ia == ints(a@),
            col_sums_fit(dt, ia, rows as int, cols as int),
            i <= rows,
            forall|jj: int| 0 <= jj < cols ==> #[trigger] dest@[jj].to_int() == col_sum(ia, cols as int, jj, i as int),
            forall|k: int| cols <= k < old(dest)@.len() ==> #[trigger] dest@[k] == old(dest)@[k],
        decreases rows - i,
    {
        let mut j: usize = 0;
        while j < cols
            invariant
                rows * cols <= usize::MAX,
                a@.len() >= rows * cols,
                dest@.len() == old(dest)@.len(),
                dest@.len() >= cols,
                dt == T::elem_dtype(),
                ia == ints(a@),
                col_sums_fit(dt, ia, rows as int, cols as int),
                i < rows,
                j <= cols,
                forall|jj: int| 0 <= jj < j ==> #[trigger] dest@[jj].to_int() == col_sum(ia, cols as int, jj, i + 1),
                forall|jj: int| j <= jj < cols ==> #[trigger] dest@[jj].to_int() == col_sum(ia, cols as int, jj, i as int),
                forall|k: int| cols <= k < old(dest)@.len() ==> #[trigger] dest@[k] == old(dest)@[k],
            decreases cols - j,
        {
            proof {
                lemma_cell_index(i as int, j as int, rows as int, cols as int);
            }
            let x = a[i * cols + j];
            let cur = dest[j];
            proof {
                assert(ia[i * cols + j] == x.to_int());
                assert(in_range(dt, col_sum(ia, cols as int, j as int, i + 1)));
            }
            dest[j] = cur.plus(x);
            j = j + 1;
        }
        i = i + 1;
    }
}

/// Fills row `i` of the `rows` x `cols` matrix in `dest` with `a[i]`.
pub fn broadcast_rows_kernel<T: Copy>(a: &Vec<T>, dest: &mut Vec<T>, rows: usize, cols: usize)
    requires
        a@.len() >= rows,
        old(dest)@.len() >= rows * cols,
    ensures
        final(dest)@.len() == old(dest)@.len(),
        forall|i: int, j: int| 0 <= i < rows && 0 <= j < cols ==> #[trigger] final(dest)@[i * cols + j] == a@[i],
        forall|k: int| rows * cols <= k < old(dest)@.len() ==> #[trigger] final(dest)@[k] == old(dest)@[k],
{
    let _ = dest.len();
    let mut i: usize = 0;
    while i < rows
        invariant
            rows * cols <= usize::MAX,
            a@.len() >= rows,
            dest@.len() == old(dest)@.len(),
            dest@.len() >= rows * cols,
            i <= rows,
            forall|ii: int, jj: int| 0 <= ii < i && 0 <= jj < cols ==> #[trigger] dest@[ii * cols + jj] == a@[ii],
            forall|k: int| i * cols <= k < old(dest)@.len() ==> #[trigger] dest@[k] == old(dest)@[k],
        decreases rows - i,
    {
        let v = a[i];
        let mut j: usize = 0;
        while j < cols
            invariant
                rows * cols <= usize::MAX,
                dest@.len() == old(dest)@.len(),
                dest@.len() >= rows * cols,
                i < rows,
                j <= cols,
                v == a@[i as int],
                forall|ii: int, jj: int|
                    (0 <= ii < i && 0 <= jj < cols) || (ii == i && 0 <= jj < j) ==> #[trigger] dest@[ii * cols + jj]
                        == a@[ii],
                forall|k: int| i * cols + j <= k < old(dest)@.len() ==> #[trigger] dest@[k] == old(dest)@[k],
            decreases cols - j,
        {
            proof {
                lemma_cell_index(i as int, j as int, rows as int, cols as int);
            }
            let ghost before = dest@;
            dest[i * cols + j] = v;
            proof {
                assert forall|ii: int, jj: int|
                    (0 <= ii < i && 0 <= jj < cols) || (ii == i && 0 <= jj < j + 1) implies #[trigger] dest@[ii
                        * cols + jj] == a@[ii] by {
                    if ii != i || jj != j {
                        lemma_cell_order(ii, jj, i as int, j as int, cols as int);
                        assert(dest@[ii * cols + jj] == before[ii * cols + jj]);
                    }
                }
            }
            j = j + 1;
        }
        proof {
            assert((i + 1) * cols == i * cols + cols) by (nonlinear_arith);
        }
        i = i + 1;
    }
}

/// Fills every row of the `rows` x `cols` matrix in `dest` with the first `cols` entries of `a`.
pub fn broadcast_cols_kernel<T: Copy>(a: &Vec<T>, dest: &mut Vec<T>, rows: usize, cols: usize)
    requires
        a@.len() >= cols,
        old(dest)@.len() >= rows * cols,
    ensures
        final(dest)@.len() == old(dest)@.len(),
        forall|i: int, j: int| 0 <= i < rows && 0 <= j < cols ==> #[trigger] final(dest)@[i * cols + j] == a@[j],
        forall|k: int| rows * cols <= k < old(dest)@.len() ==> #[trigger] final(dest)@[k] == old(dest)@[k],
{
    let _ = dest.len();
    let mut i: usize = 0;
    while i < rows
        invariant
            rows * cols <= usize::MAX,
            a@.len() >= cols,
            dest@.len() == old(dest)@.len(),
            dest@.len() >= rows * cols,
            i <= rows,
            forall|ii: int, jj: int| 0 <= ii < i && 0 <= jj < cols ==> #[trigger] dest@[ii * cols + jj] == a@[jj],
            forall|k: int| i * cols <= k < old(dest)@.len() ==> #[trigger] dest@[k] == old(dest)@[k],
        decreases rows - i,
    {
        let mut j: usize = 0;
        while j < cols
            invariant
                rows * cols <= usize::MAX,
                a@.len() >= cols,
                dest@.len() == old(dest)@.len(),
                dest@.len() >= rows * cols,
                i < rows,
                j <= cols,
                forall|ii: int, jj: int|
                    (0 <= ii < i && 0 <= jj < cols) || (ii == i && 0 <= jj < j) ==> #[trigger] dest@[ii * cols + jj]
                        == a@[jj],
                forall|k: int| i * cols + j <= k < old(dest)@.len() ==> #[trigger] dest@[k] == old(dest)@[k],
            decreases cols - j,
        {
            proof {
                lemma_cell_index(i as int, j as int, rows as int, cols as int);
            }
            let ghost before = dest@;
            dest[i * cols + j] = a[j];
            proof {
                assert forall|ii: int, jj: int|
                    (0 <= ii < i && 0 <= jj < cols) || (ii == i && 0 <= jj < j + 1) implies #[trigger] dest@[ii
                        * cols + jj] == a@[jj] by {
                    if ii != i || jj != j {
                        lemma_cell_order(ii, jj, i as int, j as int, cols as int);
                        assert(dest@[ii * cols + jj] == before[ii * cols + jj]);
                    }
                }
            }
            j = j + 1;
        }
        proof {
            assert((i + 1) * cols == i * cols + cols) by (nonlinear_arith);
        }
        i = i + 1;
    }
}


/// An element, widened, lies within 2^31 of zero.
proof fn lemma_widened_bound<T: IntElement>(x: T)
    ensures
        -0x8000_0000 <= x.to_int() <= 0x8000_0000,
{
    T::lemma_range(x);
    assert(half_modulus(T::elem_dtype()) <= 0x8000_0000);
}

/// `op` on two integers within 2^31 of zero, computed in 64 bits.
fn apply_wide(op: ElemOp, x: i64, y: i64) -> (r: i64)
    requires
        -0x8000_0000 <= x <= 0x8000_0000,
        -0x8000_0000 <= y <= 0x8000_0000,
    ensures
        r == apply_op(op, x as int, y as int),
{
    match op {
        ElemOp::Add => x + y,
        ElemOp::Sub => x - y,
        ElemOp::Mul => {
            assert(-0x4000_0000_0000_0000 <= x * y <= 0x4000_0000_0000_0000) by (nonlinear_arith)
                requires
                    -0x8000_0000 <= x <= 0x8000_0000,
                    -0x8000_0000 <= y <= 0x8000_0000,
            ;
            x * y
        },
    }
}

/// Whether `op` on the first `len` element pairs of `a` and `b` stays in the element type's range.
pub fn elementwise_fits_kernel<T: IntElement>(op: ElemOp, a: &Vec<T>, b: &Vec<T>, len: usize) -> (r: bool)
    requires
        a@.len() >= len,
        b@.len() >= len,
    ensures
        r == elementwise_fits(T::elem_dtype(), op, ints(a@), ints(b@), len as int),
{
    let ghost dt = T::elem_dtype();
    let mut i: usize = 0;
    while i < len
        invariant
            a@.len() >= len,
            b@.len() >= len,
            dt == T::elem_dtype(),
            i <= len,
            forall|k: int| 0 <= k < i ==> in_range(dt, #[trigger] apply_op(op, ints(a@)[k], ints(b@)[k])),
        decreases len - i,
    {
        proof {
            lemma_widened_bound(a@[i as int]);
            lemma_widened_bound(b@[i as int]);
        }
        let v = apply_wide(op, a[i].widen(), b[i].widen());
        proof {
            assert(ints(a@)[i as int] == a@[i as int].to_int());
            assert(ints(b@)[i as int] == b@[i as int].to_int());
        }
        if !T::holds(v) {
            assert(!in_range(dt, apply_op(op, ints(a@)[i as int], ints(b@)[i as int])));
            return false;
        }
        i = i + 1;
    }
    true
}

/// Whether computing the product of the `m` x `ka` matrix in `a` and the `kb` x `n` matrix in `b`
/// (of which the first `ka` rows are used) term by term stays in the element type's range.
pub fn matmul_fits_kernel<T: IntElement>(a: &Vec<T>, b: &Vec<T>, m: usize, ka: usize, kb: usize, n: usize) -> (r: bool)
    requires
        a@.len() >= m * ka,
        b@.len() >= kb * n,
        ka <= kb || m == 0 || n == 0,
    ensures
        r == matmul_fits(T::elem_dtype(), ints(a@), ints(b@), m as int, ka as int, n as int),
{
    let ghost dt = T::elem_dtype();
    let ghost ia = ints(a@);
    let ghost ib = ints(b@);
    let _ = a.len();
    let _ = b.len();
    let mut i: usize = 0;
    while i < m
        invariant
            m * ka <= usize::MAX,
            kb * n <= usize::MAX,
            a@.len() >= m * ka,
            b@.len() >= kb * n,
            ka <= kb || m == 0 || n == 0,
            dt == T::elem_dtype(),
            ia == ints(a@),
            ib == ints(b@),
            i <= m,
            forall|ii: int, jj: int, t: int|
                0 <= ii < i && 0 <= jj < n && 0 <= t < ka ==> in_range(
                    dt,
                    #[trigger] term(ia, ib, ii, jj, ka as int, n as int, t),
                ),
            forall|ii: int, jj: int, t: int|
                0 <= ii < i && 0 <= jj < n && 1 <= t <= ka ==> in_range(
                    dt,
                    #[trigger] dot(ia, ib, ii, jj, ka as int, n as int, t),
                ),
        decreases m - i,
    {
        let mut j: usize = 0;
        while j < n
            invariant
                m * ka <= usize::MAX,
                kb * n <= usize::MAX,
                a@.len() >= m * ka,
                b@.len() >= kb * n,
                ka <= kb || n == 0,
                dt == T::elem_dtype(),
                ia == ints(a@),
                ib == ints(b@),
                i < m,
                j <= n,
                forall|ii: int, jj: int, t: int|
                    ((0 <= ii < i && 0 <= jj < n) || (ii == i && 0 <= jj < j)) && 0 <= t < ka ==> in_range(
                        dt,
                        #[trigger] term(ia, ib, ii, jj, ka as int, n as int, t),
                    ),
                forall|ii: int, jj: int, t: int|
                    ((0 <= ii < i && 0 <= jj < n) || (ii == i && 0 <= jj < j)) && 1 <= t <= ka ==> in_range(
                        dt,
                        #[trigger] dot(ia, ib, ii, jj, ka as int, n as int, t),
                    ),
            decreases n - j,
        {
            let mut sum: i64 = 0;
            let mut t: usize = 0;
            while t < ka
                invariant
                    m * ka <= usize::MAX,
                    kb * n <= usize::MAX,
                    a@.len() >= m * ka,
                    b@.len() >= kb * n,
                    ka <= kb,
                    dt == T::elem_dtype(),
                    ia == ints(a@),
                    ib == ints(b@),
                    i < m,
                    j < n,
                    t <= ka,
                    sum as int == dot(ia, ib, i as int, j as int, ka as int, n as int, t as int),
                    -0x8000_0000 <= sum <= 0x8000_0000,
                    forall|tt: int| 0 <= tt < t ==> in_range(
                        dt,
                        #[trigger] term(ia, ib, i as int, j as int, ka as int, n as int, tt),
                    ),
                    forall|tt: int| 1 <= tt <= t ==> in_range(
                        dt,
                        #[trigger] dot(ia, ib, i as int, j as int, ka as int, n as int, tt),
                    ),
                decreases ka - t,
            {
                proof {
                    lemma_cell_index(i as int, t as int, m as int, ka as int);
                    lemma_cell_index(t as int, j as int, kb as int, n as int);
                }
                let x = a[i * ka + t];
                let y = b[t * n + j];
                proof {
                    assert(ia[i * ka + t] == x.to_int());
                    assert(ib[t * n + j] == y.to_int());
                    lemma_widened_bound(x);
                    lemma_widened_bound(y);
                }
                let p = apply_wide(ElemOp::Mul, x.widen(), y.widen());
                let ghost tm = term(ia, ib, i as int, j as int, ka as int, n as int, t as int);
                assert(p == tm);
                if !T::holds(p) {
                    assert(!in_range(dt, term(ia, ib, i as int, j as int, ka as int, n as int, t as int)));
                    return false;
                }
                proof {
                    assert(half_modulus(dt) <= 0x8000_0000);
                }
                let next = sum + p;
                assert(next == dot(ia, ib, i as int, j as int, ka as int, n as int, t + 1));
                if !T::holds(next) {
                    assert(!in_range(dt, dot(ia, ib, i as int, j as int, ka as int, n as int, t + 1)));
                    return false;
                }
                sum = next;
                t = t + 1;
            }
            j = j + 1;
        }
        i = i + 1;
    }
    true
}

/// Whether summing each row of the `rows` x `cols` matrix in `a` from left to right stays in the
/// element type's range.
pub fn row_sums_fit_kernel<T: IntElement>(a: &Vec<T>, rows: usize, cols: usize) -> (r: bool)
    requires
        a@.len() >= rows * cols,
    ensures
        r == row_sums_fit(T::elem_dtype(), ints(a@), rows as int, cols as int),
{
    let ghost dt = T::elem_dtype();
    let ghost ia = ints(a@);
    let _ = a.len();
    let mut i: usize = 0;
    while i < rows
        invariant
            rows * cols <= usize::MAX,
            a@.len() >= rows * cols,
            dt == T::elem_dtype(),
            ia == ints(a@),
            i <= rows,
            forall|ii: int, t: int| 0 <= ii < i && 1 <= t <= cols ==> in_range(dt, #[trigger] row_sum(ia, cols as int, ii, t)),
        decreases rows - i,
    {
        let mut sum: i64 = 0;
        let mut t: usize = 0;
        while t < cols
            invariant
                rows * cols <= usize::MAX,
                a@.len() >= rows * cols,
                dt == T::elem_dtype(),
                ia == ints(a@),
                i < rows,
                t <= cols,
                sum as int == row_sum(ia, cols as int, i as int, t as int),
                -0x8000_0000 <= sum <= 0x8000_0000,
                forall|ii: int, tt: int|
                    ((0 <= ii < i && 1 <= tt <= cols) || (ii == i && 1 <= tt <= t)) ==> in_range(
                        dt,
                        #[trigger] row_sum(ia, cols as int, ii, tt),
                    ),
            decreases cols - t,
        {
            proof {
                lemma_cell_index(i as int, t as int, rows as int, cols as int);
            }
            let x = a[i * cols + t];
            proof {
                assert(ia[i * cols + t] == x.to_int());
                lemma_widened_bound(x);
            }
            let next = sum + x.widen();
            assert(next == row_sum(ia, cols as int, i as int, t + 1));
            if !T::holds(next) {
                assert(!in_range(dt, row_sum(ia, cols as int, i as int, t + 1)));
                return false;
            }
            proof {
                assert(half_modulus(dt) <= 0x8000_0000);
            }
            sum = next;
            t = t + 1;
        }
        i = i + 1;
    }
    true
}

/// Whether summing each column of the `rows` x `cols` matrix in `a` from the top stays in the
/// element type's range.
pub fn col_sums_fit_kernel<T: IntElement>(a: &Vec<T>, rows: usize, cols: usize) -> (r: bool)
    requires
        a@.len() >= rows * cols,
    ensures
        r == col_sums_fit(T::elem_dtype(), ints(a@), rows as int, cols as int),
{
    let ghost dt = T::elem_dtype();
    let ghost ia = ints(a@);
    let _ = a.len();
    let mut j: usize = 0;
    while j < cols
        invariant
            rows * cols <= usize::MAX,
            a@.len() >= rows * cols,
            dt == T::elem_dtype(),
            ia == ints(a@),
            j <= cols,
            forall|jj: int, t: int| 0 <= jj < j && 1 <= t <= rows ==> in_range(dt, #[trigger] col_sum(ia, cols as int, jj, t)),
        decreases cols - j,
    {
        let mut sum: i64 = 0;
        let mut t: usize = 0;
        while t < rows
            invariant
                rows * cols <= usize::MAX,
                a@.len() >= rows * cols,
                dt == T::elem_dtype(),
                ia == ints(a@),
                j < cols,
                t <= rows,
                sum as int == col_sum(ia, cols as int, j as int, t as int),
                -0x8000_0000 <= sum <= 0x8000_0000,
                forall|jj: int, tt: int|
                    ((0 <= jj < j && 1 <= tt <= rows) || (jj == j && 1 <= tt <= t)) ==> in_range(
                        dt,
                        #[trigger] col_sum(ia, cols as int, jj, tt),
                    ),
            decreases rows - t,
        {
            proof {
                lemma_cell_index(t as int, j as int, rows as int, cols as int);
            }
            let x = a[t * cols + j];
            proof {
                assert(ia[t * cols + j] == x.to_int());
                lemma_widened_bound(x);
            }
            let next = sum + x.widen();
            assert(next == col_sum(ia, cols as int, j as int, t + 1));
            if !T::holds(next) {
                assert(!in_range(dt, col_sum(ia, cols as int, j as int, t + 1)));
                return false;
            }
            proof {
                assert(half_modulus(dt) <= 0x8000_0000);
            }
            sum = next;
            t = t + 1;
        }
        j = j + 1;
    }
    true
}

} // verus!
