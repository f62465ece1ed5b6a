use rustlearn::array::NamedArray;
use rustlearn::model_selection::SimpleTrainTestSplit;

fn input_named_array() -> Vec<NamedArray<f64>> {
    vec![NamedArray::new("bmi", vec![0.061696, -0.051474, 0.044451, -0.011595, -0.036385]).unwrap()]
}

fn input_named_array_multi() -> Vec<NamedArray<f64>> {
    vec![
        NamedArray::new("bmi", vec![0.061696, -0.051474, 0.044451, -0.011595, -0.036385]).unwrap(),
        NamedArray::new("age", vec![0.061696, -0.051474, 0.044451, -0.011595, -0.036385]).unwrap(),
    ]
}

fn target_named_array() -> NamedArray<f64> {
    NamedArray::new("target", vec![151.0, 75.0, 141.0, 206.0, 135.0]).unwrap()
}

fn target_named_array_missing() -> NamedArray<f64> {
    NamedArray::new("target", vec![151.0, 75.0, 141.0, 206.0]).unwrap()
}

#[test]
fn test_instantiation_split() {
    let s = SimpleTrainTestSplit::new(input_named_array(), target_named_array(), 2).unwrap();
    assert_eq!(s.split_index, 2);
}

#[test]
fn test_y_empty_split() {
    let x = vec![NamedArray::<f64>::new("x", Vec::new()).unwrap()];
    let y = NamedArray::<f64>::new("y", Vec::new()).unwrap();
    assert!(SimpleTrainTestSplit::new(x, y, 0).unwrap_err().is_validation());
}

#[test]
fn test_x_empty_split() {
    let x = vec![NamedArray::<f64>::new("x", Vec::new()).unwrap()];
    let y = NamedArray::new("y", vec![0.0]).unwrap();
    assert!(SimpleTrainTestSplit::new(x, y, 0).is_err());
}

#[test]
fn test_mismatch_split() {
    let e = SimpleTrainTestSplit::new(input_named_array(), target_named_array_missing(), 2)
        .unwrap_err();
    assert!(e.is_validation());
    assert!(SimpleTrainTestSplit::assert_equal_length(&input_named_array(), &target_named_array_missing()).is_err());
    assert!(SimpleTrainTestSplit::assert_equal_length(&input_named_array(), &target_named_array()).is_ok());
}

#[test]
fn split_index_at_or_beyond_the_target_length_is_rejected() {
    let e = SimpleTrainTestSplit::new(input_named_array(), target_named_array(), 5).unwrap_err();
    assert!(e.is_validation());
    assert!(SimpleTrainTestSplit::new(input_named_array(), target_named_array(), 6).is_err());
    assert!(SimpleTrainTestSplit::new(input_named_array(), target_named_array(), 4).is_ok());
}

#[test]
fn test_split() {
    let s = SimpleTrainTestSplit::new(input_named_array(), target_named_array(), 2).unwrap();
    let res = s.split().unwrap();
    assert_eq!(res.x_train.len(), 1);
    assert_eq!(res.x_test.len(), 1);
    assert_eq!(res.x_train[0].name, "bmi");
    assert_eq!(res.x_train[0].data, vec![0.061696, -0.051474]);
    assert_eq!(res.x_test[0].data, vec![0.044451, -0.011595, -0.036385]);
    assert_eq!(res.y_train.data, vec![151.0, 75.0]);
    assert_eq!(res.y_test.data, vec![141.0, 206.0, 135.0]);
    assert_eq!(res.y_test.name, "target");
}

#[test]
fn test_split_multi() {
    let s = SimpleTrainTestSplit::new(input_named_array_multi(), target_named_array(), 2).unwrap();
    let res = s.split().unwrap();
    assert_eq!(res.x_train.len(), 2);
    assert_eq!(res.x_test.len(), 2);
    for j in 0..2 {
        assert_eq!(res.x_train[j].data, vec![0.061696, -0.051474]);
        assert_eq!(res.x_test[j].data, vec![0.044451, -0.011595, -0.036385]);
    }
    assert_eq!(res.x_train[1].name, "age");
    assert_eq!(res.y_train.data, vec![151.0, 75.0]);
    assert_eq!(res.y_test.data, vec![141.0, 206.0, 135.0]);
}

#[test]
fn split_keeps_every_row_in_place() {
    let y = NamedArray::new("y", vec![10, 11, 12, 13, 14, 15, 16]).unwrap();
    let x = vec![NamedArray::new("x", vec![0, 1, 2, 3, 4, 5, 6]).unwrap()];
    for index in 0..7usize {
        let res = SimpleTrainTestSplit::new(x.clone(), y.clone(), index).unwrap().split().unwrap();
        assert_eq!(res.y_train.len() + res.y_test.len(), 7);
        assert_eq!(res.x_train[0].len() + res.x_test[0].len(), 7);
        for i in 0..7usize {
            let row = if i < index { res.y_train.data[i] } else { res.y_test.data[i - index] };
            assert_eq!(row, y.data[i]);
            let xr = if i < index { res.x_train[0].data[i] } else { res.x_test[0].data[i - index] };
            assert_eq!(xr, x[0].data[i]);
        }
    }
}

#[test]
fn split_of_invalid_fields_is_an_error() {
    let s = SimpleTrainTestSplit { x: input_named_array(), y: target_named_array(), split_index: 9 };
    assert!(s.split().unwrap_err().is_validation());
    let s = SimpleTrainTestSplit { x: input_named_array(), y: target_named_array_missing(), split_index: 1 };
    assert!(s.split().is_err());
}

#[test]
fn split_result_does_not_share_storage() {
    let s = SimpleTrainTestSplit::new(input_named_array(), target_named_array(), 3).unwrap();
    let mut res = s.split().unwrap();
    res.y_train.data[0] = -1.0;
    assert_eq!(s.y.data[0], 151.0);
}
