//! Tests for the option holding no, one, or many values.

use shapir::api::MultiOption;

#[test]
fn multi_option_create() {
    let opt: MultiOption<String> = MultiOption::Empty;
    assert_eq!(opt, MultiOption::Empty);

    let opt = MultiOption::One(1u8);
    assert_eq!(opt, MultiOption::One(1u8));

    let opt = MultiOption::Many(vec!["o", "p", "t", "i", "o", "n"]);
    assert_eq!(opt, MultiOption::Many(vec!["o", "p", "t", "i", "o", "n"]));
}

#[test]
fn multi_option_none() {
    let opt: MultiOption<usize> = MultiOption::Empty;
    assert!(opt.is_none());
}

#[test]
fn multi_option_one() {
    let opt: MultiOption<usize> = MultiOption::One(1);
    assert!(opt.is_one());
}

#[test]
fn multi_option_many() {
    let opt: MultiOption<usize> = MultiOption::Many(vec![1, 2, 3]);
    assert!(opt.is_many());
}
