use feedforward::error::DimensionError;
use feedforward::ff::{lin_forward, FFError};
use feedforward::layer::{Activation, Layer, LayerError, LayerErrorKind};

#[test]
fn forward_no_weights_returns_input() {
    let input = Layer::new(vec![1, -2, 3], 1, 3, Some(Activation::Relu)).unwrap();
    let out = lin_forward(input.clone(), vec![]).unwrap();
    assert_eq!(out, input);
    assert_eq!(out.data_vec(), &vec![1, -2, 3]);
}

#[test]
fn forward_two_layers_is_fold() {
    let input = Layer::new(vec![1, 2, 3, 4, 5, 6], 2, 3, Some(Activation::Relu)).unwrap();
    let w1 = Layer::new(vec![1, -1, -1, 1, 1, -2], 3, 2, Some(Activation::Relu)).unwrap();
    let w2 = Layer::new(vec![2, -1, -3, 1], 2, 2, None).unwrap();
    let expected = input.mult(&w1).unwrap().activate().mult(&w2).unwrap().activate();
    let out = lin_forward(input, vec![w1, w2]).unwrap();
    assert_eq!(out, expected);
    // input * w1 = [2, -5, 5, -11] -> relu -> [2, 0, 5, 0]; the product with w2
    // keeps the identity that activate left behind.
    assert_eq!(out.data_vec(), &vec![4, -2, 10, -5]);
}

#[test]
fn forward_stops_at_first_failure() {
    let input = Layer::new(vec![1, 2], 1, 2, None).unwrap();
    let w1 = Layer::new(vec![1, 0, 0, 1], 2, 2, None).unwrap();
    let w2 = Layer::new(vec![1, 2, 3], 3, 1, None).unwrap();
    let w3 = Layer::new(vec![5], 1, 1, Some(Activation::Relu)).unwrap();
    let err = lin_forward(input, vec![w1, w2, w3]).unwrap_err();
    let expected = FFError::from(DimensionError::new([2, 1], [1, 3]));
    assert_eq!(err, expected);
    assert_eq!(err.message(), "Matrix of 2 x 1 is incompatible with matrix of 1 x 3.");
}

#[test]
fn forward_reports_empty_reduction() {
    let input = Layer::new(vec![1, 2], 1, 2, None).unwrap();
    let w1 = Layer::new(Vec::<i32>::new(), 2, 0, None).unwrap();
    let err = lin_forward(input, vec![w1]).unwrap_err();
    assert_eq!(
        err.cause,
        LayerError::new(LayerErrorKind::EmptyReduction { dim_one: [2, 1], dim_two: [0, 2] })
    );
}

#[test]
fn ff_error_from_layer_error() {
    let inner = LayerError::new(LayerErrorKind::Shape { len: 1, rows: 2, cols: 2 });
    let e = FFError::from(inner.clone());
    assert_eq!(e.cause, inner);
    assert_eq!(e.message(), "Incorrect data size 1 != 2 * 2");
}
