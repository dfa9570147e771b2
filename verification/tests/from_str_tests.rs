use rusky_prompt::{BoolParseErr, MyFromStr};

#[test]
pub fn basic() {
    let my_val: bool = MyFromStr::from_str("yEs").unwrap();
    assert_eq!(my_val, true);

    let my_val: bool = MyFromStr::from_str("Y").unwrap();
    assert_eq!(my_val, true);

    let my_val: bool = MyFromStr::from_str("TrUe").unwrap();
    assert_eq!(my_val, true);

    let my_val: bool = MyFromStr::from_str("nO").unwrap();
    assert_eq!(my_val, false);

    let my_val: bool = MyFromStr::from_str("n").unwrap();
    assert_eq!(my_val, false);

    let my_val: bool = MyFromStr::from_str("fAlsE").unwrap();
    assert_eq!(my_val, false);
}

#[test]
pub fn errors() {
    let my_val = <bool as MyFromStr>::from_str("nou");
    assert!(my_val.is_err(), "'nou' Will throw error");

    let my_val = <bool as MyFromStr>::from_str("truw");
    assert!(my_val.is_err(), "'truw' Will throw error");

    let my_val = <bool as MyFromStr>::from_str("folse");
    assert!(my_val.is_err(), "'folse' Will throw error");

    let my_val = <bool as MyFromStr>::from_str("yis");
    assert!(my_val.is_err(), "'yis' Will throw error");
}

#[test]
fn bool_parse_error_message() {
    assert_eq!(BoolParseErr::get_err_message(), "Provided value is invalid");
}

#[test]
fn parse_bool_rejects_empty() {
    assert!(rusky_prompt::parse_bool("").is_err());
}
