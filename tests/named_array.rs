use rustlearn::array::{check_inputs, lengths_agree, NamedArray};
use rustlearn::errors::{ErrString, RustLearnError};

fn named_array_fixture() -> NamedArray<f64> {
    NamedArray::new("y", vec![1.0, 2.0, 3.0, 4.0]).unwrap()
}

#[test]
fn test_instantiation() {
    let a = named_array_fixture();
    assert_eq!(a.name, "y");
    assert_eq!(a.data, vec![1.0, 2.0, 3.0, 4.0]);
}

#[test]
fn test_is_empty() {
    assert!(!named_array_fixture().is_empty());
    let empty: NamedArray<f64> = NamedArray::new("e", Vec::new()).unwrap();
    assert!(empty.is_empty());
    assert_eq!(empty.len(), 0);
}

#[test]
fn test_len() {
    assert_eq!(named_array_fixture().len(), 4);
}

#[test]
fn lengths_agree_detects_a_short_predictor() {
    let y = named_array_fixture();
    let same = vec![NamedArray::new("a", vec![0.0, 0.0, 0.0, 0.0]).unwrap()];
    let short = vec![
        NamedArray::new("a", vec![0.0, 0.0, 0.0, 0.0]).unwrap(),
        NamedArray::new("b", vec![0.0, 0.0, 0.0]).unwrap(),
    ];
    assert!(lengths_agree(&same, &y));
    assert!(!lengths_agree(&short, &y));
}

#[test]
fn check_inputs_reports_each_fault() {
    let y = named_array_fixture();
    let empty_y: NamedArray<f64> = NamedArray::new("y", Vec::new()).unwrap();
    let x = vec![NamedArray::new("a", vec![1.0, 2.0, 3.0, 4.0]).unwrap()];
    assert!(check_inputs(&x, &y).is_ok());
    let e = check_inputs(&x, &empty_y).unwrap_err();
    assert!(e.is_validation());
    assert_eq!(e.message(), "target is an empty vector");
    let e = check_inputs(&Vec::new(), &y).unwrap_err();
    assert_eq!(e.message(), "no x-values provided");
    let short = vec![NamedArray::new("a", vec![1.0]).unwrap()];
    let e = check_inputs(&short, &y).unwrap_err();
    assert_eq!(e.message(), "mismatch x and y lengths");
}

#[test]
fn errors_carry_their_message_and_kind() {
    let v = RustLearnError::validation("bad input");
    let c = RustLearnError::compute("singular");
    assert!(v.is_validation());
    assert!(!c.is_validation());
    assert_eq!(v.message(), "bad input");
    assert_eq!(c.message(), "singular");
    assert!(matches!(c, RustLearnError::ComputeError(_)));
    assert_eq!(ErrString::new("text").as_str(), "text");
}
