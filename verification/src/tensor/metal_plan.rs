use vstd::prelude::*;

use super::opts::Activation;
use super::shape::Shape;

verus! {

/// The side of the square thread groups that the two-dimensional GPU kernels use.
pub const TILE: usize = 16;

/// The widest thread group that the axis-sum GPU kernel uses.
pub const MAX_REDUCE_GROUP: usize = 256;

/// The sizes a GPU kernel reads for a matrix product: `m` x `k` times `k` x `n`.
#[derive(Debug, Clone, Copy, PartialEq, Eq, Structural)]
pub struct MatMulParams {
    pub m: u32,
    pub n: u32,
    pub k: u32,
    pub activation: u32,
}

/// The sizes a GPU kernel reads for a transposition of a `rows` x `cols` matrix.
#[derive(Debug, Clone, Copy, PartialEq, Eq, Structural)]
pub struct TransposeParams {
    pub rows: u32,
    pub cols: u32,
}

/// The sizes and the axis a GPU kernel reads for a sum over one axis.
#[derive(Debug, Clone, Copy, PartialEq, Eq, Structural)]
pub struct SumAxisParams {
    pub rows: u32,
    pub cols: u32,
    pub axis: u32,
}

/// The destination sizes and the axis a GPU kernel reads for a broadcast.
#[derive(Debug, Clone, Copy, PartialEq, Eq, Structural)]
pub struct BroadcastParams {
    pub rows: u32,
    pub cols: u32,
    pub axis: u32,
}

/// A three-dimensional extent of threads or thread groups.
#[derive(Debug, Clone, Copy, PartialEq, Eq, Structural)]
pub struct GridSize {
    pub width: usize,
    pub height: usize,
    pub depth: usize,
}

/// How a GPU kernel is launched: the number of thread groups (or threads) and the size of one group.
#[derive(Debug, Clone, Copy, PartialEq, Eq, Structural)]
pub struct Dispatch {
    pub grid: GridSize,
    pub group: GridSize,
}

/// The smallest number of groups of `g` that covers `n` items.
pub open spec fn groups_for(n: int, g: int) -> int {
    (n + g - 1) / g
}

/// The kernel parameters of the product of `shape_a` and `shape_b`; sizes are cut to 32 bits.
pub fn mat_mul_params(shape_a: Shape, shape_b: Shape, activation: Activation) -> (p: MatMulParams)
    requires
        shape_a@.len() >= 2,
        shape_b@.len() >= 2,
    ensures
        p.m == shape_a@[0] as u32,
        p.n == shape_b@[1] as u32,
        p.k == shape_a@[1] as u32,
        p.activation == (match activation {
            Activation::Linear => 0u32,
            Activation::ReLU => 1u32,
        }),
{
    MatMulParams {
        m: shape_a.index(0) as u32,
        n: shape_b.index(1) as u32,
        k: shape_a.index(1) as u32,
        activation: activation.to_shader_flag(),
    }
}

/// The kernel parameters of the transposition of a matrix of `shape`; sizes are cut to 32 bits.
pub fn transpose_params(shape: Shape) -> (p: TransposeParams)
    requires
        shape@.len() >= 2,
    ensures
        p.rows == shape@[0] as u32,
        p.cols == shape@[1] as u32,
{
    TransposeParams { rows: shape.index(0) as u32, cols: shape.index(1) as u32 }
}

/// The kernel parameters of the sum of a matrix of `shape` over `axis`; values are cut to 32 bits.
pub fn sum_axis_params(shape: Shape, axis: usize) -> (p: SumAxisParams)
    requires
        shape@.len() >= 2,
    ensures
        p.rows == shape@[0] as u32,
        p.cols == shape@[1] as u32,
        p.axis == axis as u32,
{
    SumAxisParams { rows: shape.index(0) as u32, cols: shape.index(1) as u32, axis: axis as u32 }
}

/// The kernel parameters of a broadcast into a matrix of `dest_shape`; values are cut to 32 bits.
pub fn broadcast_params(dest_shape: Shape, axis: usize) -> (p: BroadcastParams)
    requires
        dest_shape@.len() >= 2,
    ensures
        p.rows == dest_shape@[0] as u32,
        p.cols == dest_shape@[1] as u32,
        p.axis == axis as u32,
{
    BroadcastParams { rows: dest_shape.index(0) as u32, cols: dest_shape.index(1) as u32, axis: axis as u32 }
}

/// The launch of a two-dimensional kernel over a `rows` x `cols` output: 16 x 16 thread groups,
/// enough of them to cover every output cell.
pub fn tiled_dispatch(rows: usize, cols: usize) -> (d: Dispatch)
    requires
        rows + 15 <= usize::MAX,
        cols + 15 <= usize::MAX,
    ensures
        d.group == (GridSize { width: 16, height: 16, depth: 1 }),
        d.grid == (GridSize { width: groups_for(cols as int, 16) as usize, height: groups_for(rows as int, 16) as usize, depth: 1 }),
        d.grid.width * 16 >= cols,
        d.grid.height * 16 >= rows,
{
    let grid_width = (cols + 15) / TILE;
    let grid_height = (rows + 15) / TILE;
    Dispatch {
        grid: GridSize { width: grid_width, height: grid_height, depth: 1 },
        group: GridSize { width: TILE, height: TILE, depth: 1 },
    }
}

/// The launch of the kernel that sums a matrix of `shape` over `axis`: one thread per output
/// element, in groups of at most 256. The group count is computed as `(n + w) - 1` divided by the
/// group width `w` (addition and subtraction group from the left), so with groups of 256 the sum
/// `n + 256` must fit in `usize`, and `n` must be positive for the division.
pub fn sum_axis_dispatch(shape: Shape, axis: usize) -> (d: Dispatch)
    requires
        shape@.len() >= 2,
        (if axis == 0 { shape@[1] } else { shape@[0] }) > 0,
        (if axis == 0 { shape@[1] } else { shape@[0] }) < 256 || (if axis == 0 { shape@[1] } else {
            shape@[0]
        }) + 256 <= usize::MAX,
    ensures
        ({
            let n = (if axis == 0 { shape@[1] } else { shape@[0] }) as int;
            let w = if n < 256 { n } else { 256 };
            &&& d.group == (GridSize { width: w as usize, height: 1, depth: 1 })
            &&& d.grid == (GridSize { width: groups_for(n, w) as usize, height: 1, depth: 1 })
            &&& d.grid.width * d.group.width >= n
        }),
{
    let dest_size = if axis == 0 {
        shape.index(1)
    } else {
        shape.index(0)
    };
    let width = if dest_size < MAX_REDUCE_GROUP {
        dest_size
    } else {
        MAX_REDUCE_GROUP
    };
    let grid_width = (dest_size + width - 1) / width;
    proof {
        let n = dest_size as int;
        let w = width as int;
        assert(((n + w - 1) / w) * w >= n) by (nonlinear_arith)
            requires
                w > 0,
                n >= 0,
        ;
    }
    Dispatch {
        grid: GridSize { width: grid_width, height: 1, depth: 1 },
        group: GridSize { width: width, height: 1, depth: 1 },
    }
}

/// The launch of an element-wise kernel over `array_length` elements: one thread per element, in
/// groups as wide as the pipeline allows (`max_group`) but no wider than the array.
pub fn elementwise_dispatch(array_length: usize, max_group: usize) -> (d: Dispatch)
    ensures
        d.grid == (GridSize { width: array_length, height: 1, depth: 1 }),
        d.group == (GridSize {
            width: if max_group > array_length { array_length } else { max_group },
            height: 1,
            depth: 1,
        }),
{
    let group_width = if max_group > array_length {
        array_length
    } else {
        max_group
    };
    Dispatch {
        grid: GridSize { width: array_length, height: 1, depth: 1 },
        group: GridSize { width: group_width, height: 1, depth: 1 },
    }
}

} // verus!
