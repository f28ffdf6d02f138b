use jhtensor::tensor::Shape;

#[test]
fn new_empty() {
    let s = Shape::new(&[]);
    assert_eq!(s.ndim(), 0);
}

#[test]
fn new_one_dim() {
    let s = Shape::new(&[5]);
    assert_eq!(s.ndim(), 1);
    assert_eq!(s.dim(0), Some(5));
    assert_eq!(s.product(), 5);
}

#[test]
fn new_two_dims() {
    let s = Shape::new(&[2, 3]);
    assert_eq!(s.ndim(), 2);
    assert_eq!(s.dim(0), Some(2));
    assert_eq!(s.dim(1), Some(3));
    assert_eq!(s.product(), 6);
}

#[test]
fn new_max_dims() {
    let s = Shape::new(&[1, 2, 3, 4, 5, 6, 7, 8]);
    assert_eq!(s.ndim(), 8);
}

#[test]
fn new_truncates_over_eight() {
    let s = Shape::new(&[1, 2, 3, 4, 5, 6, 7, 8, 9]);
    assert_eq!(s.ndim(), 8);
}

#[test]
fn dim_out_of_bounds() {
    let s = Shape::new(&[2, 3]);
    assert_eq!(s.dim(2), None);
    assert_eq!(s.dim(100), None);
}

#[test]
fn iter_single() {
    let s = Shape::new(&[4]);
    assert_eq!(s.iter(), vec![4]);
}

#[test]
fn iter_multiple() {
    let s = Shape::new(&[2, 3]);
    assert_eq!(s.iter(), vec![2, 3]);
}

#[test]
fn iter_empty() {
    let s = Shape::new(&[]);
    assert!(s.iter().is_empty());
}

#[test]
fn product_empty_is_one() {
    let s = Shape::new(&[]);
    assert_eq!(s.product(), 1);
}

#[test]
fn product_with_zeros() {
    let s = Shape::new(&[2, 0, 3]);
    assert_eq!(s.product(), 0);
}

#[test]
fn display_empty() {
    let s = Shape::new(&[]);
    assert_eq!(s.to_string(), "[]");
}

#[test]
fn display_one() {
    let s = Shape::new(&[5]);
    assert_eq!(s.to_string(), "[5]");
}

#[test]
fn display_two() {
    let s = Shape::new(&[2, 3]);
    assert_eq!(s.to_string(), "[2, 3]");
}

#[test]
fn from_slice() {
    let s: Shape = (&[10, 20][..]).into();
    assert_eq!(s.ndim(), 2);
    assert_eq!(s.dim(0), Some(10));
    assert_eq!(s.dim(1), Some(20));
}

#[test]
fn from_vec() {
    let s: Shape = vec![3, 4].into();
    assert_eq!(s.ndim(), 2);
    assert_eq!(s.dim(0), Some(3));
}

#[test]
fn index_valid() {
    let s = Shape::new(&[7, 8]);
    assert_eq!(s.index(0), 7);
    assert_eq!(s.index(1), 8);
}

#[test]
fn as_ref_basic() {
    let s = Shape::new(&[5, 6]);
    assert_eq!(s.as_ref(), vec![5, 6]);
}

#[test]
fn as_ref_empty() {
    let s = Shape::new(&[]);
    assert_eq!(s.as_ref(), Vec::<usize>::new());
}

#[test]
fn clone_and_copy() {
    let s = Shape::new(&[2, 3]);
    let s2 = s;
    let _s3 = s;
    assert_eq!(s.ndim(), s2.ndim());
    assert_eq!(s.dim(0), s2.dim(0));
}

#[test]
fn partial_eq() {
    assert_eq!(Shape::new(&[2, 3]), Shape::new(&[2, 3]));
    assert_ne!(Shape::new(&[2, 3]), Shape::new(&[2, 4]));
    assert_ne!(Shape::new(&[2, 3]), Shape::new(&[1, 6]));
}

#[test]
fn debug() {
    let s = Shape::new(&[2, 3]);
    let out = format!("{:?}", s);
    assert!(out.starts_with("Shape"));
    assert!(out.contains("dims"));
}

#[test]
fn display_large_numbers() {
    let s = Shape::new(&[1234567, 0, 10]);
    assert_eq!(s.to_string(), "[1234567, 0, 10]");
}

#[test]
fn checked_product_overflow_is_none() {
    let s = Shape::new(&[usize::MAX, 2]);
    assert_eq!(s.checked_product(), None);
    let t = Shape::new(&[4, 5, 6]);
    assert_eq!(t.checked_product(), Some(120));
}

#[test]
fn truncated_shape_keeps_first_eight() {
    let s = Shape::new(&[1, 2, 3, 4, 5, 6, 7, 8, 9]);
    assert_eq!(s.iter(), vec![1, 2, 3, 4, 5, 6, 7, 8]);
    assert_eq!(s, Shape::new(&[1, 2, 3, 4, 5, 6, 7, 8]));
    assert_eq!(s.product(), 40320);
}
