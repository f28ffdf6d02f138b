use jhtensor::tensor::{
    broadcast_params, elementwise_dispatch, mat_mul_params, sum_axis_dispatch, sum_axis_params, tiled_dispatch,
    transpose_params, Activation, GridSize, Shape,
};

#[test]
fn mat_mul_parameters() {
    let p = mat_mul_params(Shape::new(&[5, 3]), Shape::new(&[3, 2]), Activation::ReLU);
    assert_eq!((p.m, p.n, p.k, p.activation), (5, 2, 3, 1));
    let q = mat_mul_params(Shape::new(&[1, 5]), Shape::new(&[5, 1]), Activation::Linear);
    assert_eq!((q.m, q.n, q.k, q.activation), (1, 1, 5, 0));
}

#[test]
fn parameters_of_other_kernels() {
    let t = transpose_params(Shape::new(&[2, 3]));
    assert_eq!((t.rows, t.cols), (2, 3));
    let s = sum_axis_params(Shape::new(&[4, 7]), 1);
    assert_eq!((s.rows, s.cols, s.axis), (4, 7, 1));
    let b = broadcast_params(Shape::new(&[3, 4]), 0);
    assert_eq!((b.rows, b.cols, b.axis), (3, 4, 0));
}

#[test]
fn tiled_dispatch_covers_output() {
    let d = tiled_dispatch(5, 33);
    assert_eq!(d.group, GridSize { width: 16, height: 16, depth: 1 });
    assert_eq!(d.grid, GridSize { width: 3, height: 1, depth: 1 });
    let e = tiled_dispatch(16, 16);
    assert_eq!(e.grid, GridSize { width: 1, height: 1, depth: 1 });
}

#[test]
fn sum_axis_dispatch_groups() {
    let d = sum_axis_dispatch(Shape::new(&[10, 600]), 0);
    assert_eq!(d.group, GridSize { width: 256, height: 1, depth: 1 });
    assert_eq!(d.grid, GridSize { width: 3, height: 1, depth: 1 });
    let e = sum_axis_dispatch(Shape::new(&[10, 600]), 1);
    assert_eq!(e.group, GridSize { width: 10, height: 1, depth: 1 });
    assert_eq!(e.grid, GridSize { width: 1, height: 1, depth: 1 });
}

#[test]
fn elementwise_dispatch_group_width() {
    let d = elementwise_dispatch(5, 1024);
    assert_eq!(d.grid, GridSize { width: 5, height: 1, depth: 1 });
    assert_eq!(d.group, GridSize { width: 5, height: 1, depth: 1 });
    let e = elementwise_dispatch(5000, 1024);
    assert_eq!(e.group, GridSize { width: 1024, height: 1, depth: 1 });
}
