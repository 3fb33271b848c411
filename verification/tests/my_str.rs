//! Tests for the `my_str` wrapper types.

use opaque_typedef::my_str::{MyStr, MyString};

fn ensure_eq_inner(x: &str, y: &MyStr) {
    assert_eq!(x, y.as_inner());
}

#[test]
fn my_str_basic_traits() {
    let ok_str = "foobar";
    let my_str = MyStr::new(ok_str);
    ensure_eq_inner(ok_str, &my_str);
}

#[test]
fn as_ref() {
    let ok_str = "foobar";
    let my_str = MyStr::new(ok_str);
    let _: &str = my_str.as_ref_str();
}

#[test]
fn default_ref() {
    let ok_str = <&str as Default>::default();
    let my_str = MyStr::default();
    ensure_eq_inner(ok_str, &my_str);
}

#[test]
fn my_str_deref() {
    let ok_str = "foobar";
    let my_str = MyStr::new(ok_str);
    let _: &str = my_str.deref_str();
}

#[test]
fn my_str_from_inner() {
    let ok_str = "foobar";
    let _: MyStr = MyStr::from_inner(ok_str);
}

#[test]
fn basic_traits() {
    let ok_string = "foobar".to_owned();
    let my_string = MyString::from_string(ok_string.clone());
    assert_eq!(&ok_string, my_string.as_inner());
    assert_eq!(ok_string, my_string.into_inner());
}

#[test]
fn as_ref_deref() {
    let ok_string = "foobar".to_owned();
    let my_string = MyString::from_string(ok_string);
    let _: &str = my_string.as_ref_str();
}

#[test]
fn as_ref_inner() {
    let ok_string = "foobar".to_owned();
    let my_string = MyString::from_string(ok_string);
    let _: &String = my_string.as_inner();
}

#[test]
fn deref() {
    let ok_string = "foobar".to_owned();
    let my_string = MyString::from_string(ok_string);
    let _: &str = my_string.deref_str();
}

#[test]
fn from_inner() {
    let ok_string = "foobar".to_owned();
    let _: MyString = MyString::from_inner(ok_string);
}

#[test]
fn my_str_round_trip_contents() {
    let my_str = MyStr::from_inner_unchecked("round trip");
    assert_eq!(my_str.as_inner(), "round trip");
}

#[test]
fn my_string_deref_contents() {
    let my_string = MyString::from_string("foobar".to_owned());
    assert_eq!(my_string.deref_str(), "foobar");
    assert_eq!(my_string.as_ref_str(), "foobar");
}

#[test]
fn as_mut_deref() {
    let ok_string = "foobar".to_owned();
    let mut my_string = MyString::from_string(ok_string);
    let _: &mut str = my_string.as_mut_str();
}

#[test]
fn as_mut_inner() {
    let ok_string = "foobar".to_owned();
    let mut my_string = MyString::from_string(ok_string);
    let _: &mut String = my_string.as_inner_mut();
}

#[test]
fn deref_mut() {
    let ok_string = "foobar".to_owned();
    let mut my_string = MyString::from_string(ok_string);
    let _: &mut str = my_string.deref_mut_str();
}

#[test]
fn my_string_mutation_through_views() {
    let mut my_string = MyString::from_string("foobar".to_owned());
    my_string.as_mut_str().make_ascii_uppercase();
    assert_eq!(my_string.as_ref_str(), "FOOBAR");
    my_string.as_inner_mut().push('!');
    assert_eq!(my_string.into_inner(), "FOOBAR!");
}
