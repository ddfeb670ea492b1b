use feedforward::error::DimensionError;
use feedforward::layer::{Activation, Layer, LayerError, LayerErrorKind};

#[test]
fn multiply() {
    let m1 = Layer::new(vec![1, 2, 3, 4, 5, 6], 2, 3, None).unwrap();

    let m2 = Layer::new(vec![1, 2, 3, 4, 5, 6, 7, 8, 9], 3, 3, None).unwrap();

    let result = m1.mult(&m2).unwrap();

    let expected = Layer::new(vec![30, 36, 42, 66, 81, 96], 2, 3, None).unwrap();

    assert_eq!(result, expected);
}

#[test]
fn activate() {
    let m = Layer::new(
        vec![1, -2, 3, -4, 5, -6, 7, -8, 9],
        3,
        3,
        Some(Activation::Relu),
    )
    .unwrap();
    let result = m.activate();
    let expected =
        Layer::new(vec![1, 0, 3, 0, 5, 0, 7, 0, 9], 3, 3, Some(Activation::Relu)).unwrap();

    assert_eq!(result, expected)
}

#[test]
fn new_keeps_data_and_shape() {
    let m = Layer::new(vec![1i64, 2, 3, 4, 5, 6], 3, 2, None).unwrap();
    assert_eq!(m.rows_count(), 3);
    assert_eq!(m.cols_count(), 2);
    assert_eq!(m.data_vec(), &vec![1i64, 2, 3, 4, 5, 6]);
}

#[test]
fn new_rejects_wrong_length() {
    let too_short = Layer::new(vec![1, 2, 3, 4, 5], 2, 3, None);
    let err = too_short.unwrap_err();
    assert_eq!(err.kind, LayerErrorKind::Shape { len: 5, rows: 2, cols: 3 });
    assert_eq!(err.message(), "Incorrect data size 5 != 3 * 2");

    let too_long = Layer::new(vec![1, 2, 3, 4, 5, 6, 7], 2, 3, None);
    assert!(too_long.is_err());
}

#[test]
fn new_rejects_overflowing_shape() {
    let r = Layer::new(vec![1, 2], usize::MAX, 2, None);
    assert_eq!(r.unwrap_err().kind, LayerErrorKind::Shape { len: 2, rows: usize::MAX, cols: 2 });
}

#[test]
fn row_and_col() {
    let m = Layer::new(vec![1, 2, 3, 4, 5, 6], 2, 3, None).unwrap();
    assert_eq!(m.row(0), Some(vec![1, 2, 3]));
    assert_eq!(m.row(1), Some(vec![4, 5, 6]));
    assert_eq!(m.row(2), None);
    assert_eq!(m.col(0), Some(vec![1, 4]));
    assert_eq!(m.col(2), Some(vec![3, 6]));
    assert_eq!(m.col(3), None);
}

#[test]
fn mult_result_shape() {
    let a = Layer::new(vec![1, 2, 3, 4, 5, 6], 2, 3, None).unwrap();
    let b = Layer::new(vec![1, 0, -1], 3, 1, None).unwrap();
    let p = a.mult(&b).unwrap();
    assert_eq!(p.rows_count(), 2);
    assert_eq!(p.cols_count(), 1);
    assert_eq!(p.data_vec(), &vec![-2, -2]);
}

#[test]
fn mult_single_element() {
    let a = Layer::new(vec![7i64], 1, 1, None).unwrap();
    let b = Layer::new(vec![-6i64], 1, 1, None).unwrap();
    assert_eq!(a.mult(&b).unwrap().data_vec(), &vec![-42i64]);
}

#[test]
fn mult_dimension_mismatch() {
    let a = Layer::new(vec![1, 2, 3, 4, 5, 6], 2, 3, None).unwrap();
    let b = Layer::new(vec![1, 2, 3, 4], 2, 2, None).unwrap();
    let err = a.mult(&b).unwrap_err();
    assert_eq!(err.kind, LayerErrorKind::Dimension(DimensionError::new([3, 2], [2, 2])));
    assert_eq!(err.message(), "Matrix of 3 x 2 is incompatible with matrix of 2 x 2.");
}

#[test]
fn mult_empty_inner_dimension() {
    let a = Layer::new(Vec::<i32>::new(), 2, 0, None).unwrap();
    let b = Layer::new(Vec::<i32>::new(), 0, 2, None).unwrap();
    let err = a.mult(&b).unwrap_err();
    assert_eq!(err.kind, LayerErrorKind::EmptyReduction { dim_one: [0, 2], dim_two: [2, 0] });
    assert_eq!(
        err.message(),
        "Matrix of 0 x 2 and matrix of 2 x 0 leave an empty dot product."
    );
}

#[test]
fn mult_zero_row_operand() {
    let a = Layer::new(Vec::<i32>::new(), 0, 3, None).unwrap();
    let b = Layer::new(vec![1, 2, 3, 4, 5, 6], 3, 2, None).unwrap();
    let err = a.mult(&b).unwrap_err();
    assert_eq!(err.kind, LayerErrorKind::EmptyReduction { dim_one: [3, 0], dim_two: [2, 3] });
}

#[test]
fn mult_zero_column_operand() {
    let a = Layer::new(vec![1, 2, 3, 4, 5, 6], 2, 3, None).unwrap();
    let b = Layer::new(Vec::<i32>::new(), 3, 0, None).unwrap();
    let err = a.mult(&b).unwrap_err();
    assert_eq!(err.kind, LayerErrorKind::EmptyReduction { dim_one: [3, 2], dim_two: [0, 3] });
}

#[test]
fn mult_keeps_left_activation() {
    let a = Layer::new(vec![1, -1], 1, 2, Some(Activation::Relu)).unwrap();
    let b = Layer::new(vec![1, 0, 0, 1], 2, 2, None).unwrap();
    let activated = a.mult(&b).unwrap().activate();
    assert_eq!(activated.data_vec(), &vec![1, 0]);

    let c = Layer::new(vec![1, -1], 1, 2, None).unwrap();
    let d = Layer::new(vec![1, 0, 0, 1], 2, 2, Some(Activation::Relu)).unwrap();
    let kept = c.mult(&d).unwrap().activate();
    assert_eq!(kept.data_vec(), &vec![1, -1]);
}

#[test]
fn activate_resets_to_identity() {
    let m = Layer::new(vec![-3, 4], 1, 2, Some(Activation::Relu)).unwrap();
    let once = m.activate();
    assert_eq!(once.data_vec(), &vec![0, 4]);
    let twice = once.activate();
    assert_eq!(twice.data_vec(), &vec![0, 4]);

    let neg = Layer::new(vec![-3, 4], 1, 2, None).unwrap();
    assert_eq!(neg.activate().data_vec(), &vec![-3, 4]);
}

#[test]
fn equality_ignores_activation() {
    let a = Layer::new(vec![1, -2, 3, -4], 2, 2, None).unwrap();
    let b = Layer::new(vec![1, -2, 3, -4], 2, 2, Some(Activation::Relu)).unwrap();
    assert_eq!(a, b);
}

#[test]
fn equality_needs_same_shape_and_data() {
    let a = Layer::new(vec![1, 2, 3, 4], 2, 2, None).unwrap();
    let b = Layer::new(vec![1, 2, 3, 4], 1, 4, None).unwrap();
    let c = Layer::new(vec![1, 2, 3, 5], 2, 2, None).unwrap();
    assert_ne!(a, b);
    assert_ne!(a, c);
    assert_eq!(a.clone(), a);
}

#[test]
fn error_from_dimension_error() {
    let e = LayerError::from(DimensionError::new([4, 1], [2, 3]));
    assert_eq!(e, LayerError::new(LayerErrorKind::Dimension(DimensionError::new([4, 1], [2, 3]))));
    assert_eq!(e.message(), "Matrix of 4 x 1 is incompatible with matrix of 2 x 3.");
}

#[test]
fn dimension_message_multi_digit() {
    let d = DimensionError::new([120, 7], [10, 3045]);
    assert_eq!(d.message(), "Matrix of 120 x 7 is incompatible with matrix of 10 x 3045.");
}
