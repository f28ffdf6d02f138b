use jhtensor::tensor::{Activation, CPUBackend, DType, Tensor, TensorData};

type T = Tensor<CPUBackend>;

fn i32s(values: &[i32]) -> TensorData {
    TensorData::Int32(values.to_vec())
}

fn ints(t: &T) -> Vec<i32> {
    match t.to_vec(DType::Int32).unwrap() {
        TensorData::Int32(v) => v,
        other => panic!("expected Int32 data, got {:?}", other),
    }
}

#[test]
fn transposing_twice_gives_back_the_tensor() {
    let a = T::new(&i32s(&[1, 2, 3, 4, 5, 6]), &[2, 3]).unwrap();
    let back = a.transpose().unwrap().transpose().unwrap();
    assert_eq!(back.shape(), a.shape());
    assert_eq!(ints(&back), ints(&a));
}

#[test]
fn column_sums_are_row_sums_of_the_transpose() {
    let a = T::new(&i32s(&[1, -2, 3, 4, 5, -6, 7, 8, 9, 10, 11, 12]), &[3, 4]).unwrap();
    let by_columns = a.sum_axis(0).unwrap();
    let by_rows_of_transpose = a.transpose().unwrap().sum_axis(1).unwrap();
    assert_eq!(ints(&by_columns), ints(&by_rows_of_transpose));
    assert_eq!(ints(&by_columns), vec![15, 2, 21, 24]);
}

#[test]
fn broadcast_then_sum_multiplies() {
    let v = T::new(&i32s(&[3, -1, 7]), &[3]).unwrap();
    let copies = v.broadcast(&[4, 3], 0).unwrap();
    assert_eq!(ints(&copies.sum_axis(0).unwrap()), vec![12, -4, 28]);
    let filled = v.broadcast(&[3, 5], 1).unwrap();
    assert_eq!(ints(&filled.sum_axis(1).unwrap()), vec![15, -5, 35]);
}

#[test]
fn addition_and_multiplication_commute() {
    let a = T::new(&i32s(&[1, -2, 30000, i32::MAX - 2]), &[4]).unwrap();
    let b = T::new(&i32s(&[5, 7, 70000, 1]), &[4]).unwrap();
    assert_eq!(ints(&a.add(&b).unwrap()), ints(&b.add(&a).unwrap()));
    assert_eq!(ints(&a.mul(&b).unwrap()), ints(&b.mul(&a).unwrap()));
}

#[test]
fn subtracting_then_adding_gives_back_the_tensor() {
    let a = T::new(&i32s(&[i32::MIN + 1, -5, 0, i32::MAX - 3]), &[2, 2]).unwrap();
    let b = T::new(&i32s(&[1, 1000, -3, -1]), &[2, 2]).unwrap();
    let back = a.sub(&b).unwrap().add(&b).unwrap();
    assert_eq!(ints(&back), ints(&a));
}

#[test]
fn transpose_of_product_is_product_of_transposes() {
    let a = T::new(&i32s(&[1, 2, 3, 4, 5, 6]), &[2, 3]).unwrap();
    let b = T::new(&i32s(&[7, -8, 9, 10, 11, -12]), &[3, 2]).unwrap();
    let mut ab = T::new(&i32s(&[0; 4]), &[2, 2]).unwrap();
    a.mat_mul_inplace(&b, &mut ab, Activation::Linear).unwrap();
    let mut bt_at = T::new(&i32s(&[0; 4]), &[2, 2]).unwrap();
    b.transpose().unwrap().mat_mul_inplace(&a.transpose().unwrap(), &mut bt_at, Activation::Linear).unwrap();
    assert_eq!(ints(&ab.transpose().unwrap()), ints(&bt_at));
}

#[test]
fn relu_products_are_non_negative() {
    let a = T::new(&i32s(&[1, -2, 3, -4, 5, -6]), &[3, 2]).unwrap();
    let b = T::new(&i32s(&[-1, 2, 3, -4]), &[2, 2]).unwrap();
    let mut d = T::new(&i32s(&[0; 6]), &[3, 2]).unwrap();
    a.mat_mul_inplace(&b, &mut d, Activation::ReLU).unwrap();
    assert!(ints(&d).iter().all(|x| *x >= 0));
    assert_eq!(ints(&d), vec![0, 10, 0, 22, 0, 34]);
}
