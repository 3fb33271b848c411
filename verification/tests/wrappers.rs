//! Tests for the integer and collection wrapper types: validated and
//! unchecked construction, arithmetic, and the comparison pairings.

use opaque_typedef::atleast2items::{
    ensure_at_least_2_items, SliceAtLeast2Items, TooFewItems, VecAtLeast2Items,
};
use opaque_typedef::even32::{
    eq_inner_rev, lt_inner_rev, validate_even32, Even32, OddError,
};
use opaque_typedef::int32::Int32;

#[test]
fn even32_validator_accepts_even() {
    assert_eq!(validate_even32(4), Ok(4));
    assert_eq!(validate_even32(0), Ok(0));
    assert_eq!(validate_even32(-2), Ok(-2));
}

#[test]
fn even32_validator_rejects_odd() {
    assert_eq!(validate_even32(3), Err(OddError));
    assert_eq!(validate_even32(-1), Err(OddError));
}

#[test]
fn even32_validated_construction() {
    let w = Even32::try_from_inner(4).unwrap();
    assert_eq!(w.to_i32(), 4);
    assert!(Even32::try_from_inner(3).is_err());
    assert_eq!(Even32::from_inner(8).to_i32(), 8);
}

#[test]
fn even32_addition_computes_on_inner() {
    let a = Even32::from_inner(4);
    let b = Even32::from_inner(6);
    assert_eq!(a.add(b).to_i32(), 10);
    assert_eq!(a.add_ref(&b).to_i32(), 10);
    let mut c = Even32::from_inner(4);
    c.add_assign(b);
    assert_eq!(c.to_i32(), 10);
}

#[test]
fn even32_unchecked_skips_validation() {
    let odd = Even32::from_inner_unchecked(3);
    assert_eq!(odd.to_i32(), 3);
    let sum = odd.add(Even32::from_inner(4));
    assert_eq!(sum.to_i32(), 7);
    assert!(validate_even32(sum.to_i32()).is_err());
}

#[test]
fn even32_eq_pairings_agree() {
    let w = Even32::from_inner(4);
    assert!(w.eq_inner(&4));
    assert!(eq_inner_rev(&4, &w));
    assert!(!w.eq_inner(&6));
    assert!(!eq_inner_rev(&6, &w));
    assert!(w.lt_inner(&6));
    assert!(lt_inner_rev(&2, &w));
}

#[test]
fn int32_end_to_end() {
    let w = Int32::from_inner(4);
    assert!(w.eq_inner(&4));
    assert!(Int32::eq_inner_rev(&4, &w));
    let sum = w.add(Int32::from_inner(6));
    assert_eq!(sum.to_i32(), 10);
}

#[test]
fn int32_arithmetic_exact() {
    let a = Int32::from_inner(20);
    let b = Int32::from_inner(6);
    assert_eq!(a.add(b).to_i32(), 26);
    assert_eq!(a.sub(b).to_i32(), 14);
    assert_eq!(a.mul(b).to_i32(), 120);
    assert_eq!(a.div(b).to_i32(), 3);
    assert_eq!(a.rem(b).to_i32(), 2);
    assert_eq!(a.add_inner(5).to_i32(), 25);
    assert_eq!(Int32::add_inner_rev(5, a).to_i32(), 25);
    let mut c = Int32::from_inner(20);
    c.add_assign(b);
    assert_eq!(c.to_i32(), 26);
    c.sub_assign(b);
    assert_eq!(c.to_i32(), 20);
    assert_eq!(Int32::from_inner_unchecked(7).into_inner(), 7);
    assert!(a.lt_inner(&21));
    assert_eq!(*a.as_inner(), 20);
}

#[test]
fn slice_validator_reports_length() {
    let two = [1, 2];
    let one = [1];
    assert!(ensure_at_least_2_items(&two).is_ok());
    assert_eq!(ensure_at_least_2_items(&one), Err(TooFewItems(1)));
    let empty: [i32; 0] = [];
    assert_eq!(ensure_at_least_2_items(&empty), Err(TooFewItems(0)));
}

#[test]
fn slice_round_trip_contents() {
    let items = [1, 2, 3];
    let wrapped = SliceAtLeast2Items::from_inner_unchecked(&items);
    assert_eq!(wrapped.as_slice(), &[1, 2, 3]);
    assert_eq!(wrapped.as_inner(), &[1, 2, 3]);
    let checked = SliceAtLeast2Items::new(&items);
    assert_eq!(checked.as_slice(), &[1, 2, 3]);
    assert!(SliceAtLeast2Items::try_from_inner(&items[..1]).is_err());
}

#[test]
fn vec_validated_construction() {
    let w = VecAtLeast2Items::from_vec(vec![5, 6]);
    assert_eq!(w.as_slice(), &[5, 6]);
    assert_eq!(w.into_inner(), vec![5, 6]);
    let short = VecAtLeast2Items::try_from_vec(vec![5]);
    assert!(matches!(short, Err(TooFewItems(1))));
    let ok = VecAtLeast2Items::try_from_vec(vec![5, 6, 7]).unwrap();
    assert_eq!(ok.as_slice(), &[5, 6, 7]);
}

#[test]
fn vec_mutation_through_slice_view() {
    let mut w = VecAtLeast2Items::from_vec(vec![5, 6]);
    w.as_mut_slice()[0] = 9;
    assert_eq!(w.as_slice(), &[9, 6]);
}

#[test]
fn int32_division_truncates_toward_zero() {
    let div = |a: i32, b: i32| Int32::from_inner(a).div(Int32::from_inner(b)).to_i32();
    let rem = |a: i32, b: i32| Int32::from_inner(a).rem(Int32::from_inner(b)).to_i32();
    assert_eq!(div(-7, 2), -3);
    assert_eq!(div(7, -2), -3);
    assert_eq!(div(-7, -2), 3);
    assert_eq!(rem(-7, 2), -1);
    assert_eq!(rem(7, -2), 1);
    assert_eq!(rem(-7, -2), -1);
}
