use cgroups_v2::limit::Limit;
use cgroups_v2::text::{decimal_string, push_decimal, push_signed_decimal};

#[test]
fn decimal_of_zero_is_one_digit() {
    assert_eq!(decimal_string(0), "0");
}

#[test]
fn decimal_of_single_digits() {
    for n in 0u64..10 {
        assert_eq!(decimal_string(n), n.to_string());
    }
}

#[test]
fn decimal_has_most_significant_digit_first() {
    assert_eq!(decimal_string(10), "10");
    assert_eq!(decimal_string(1024), "1024");
    assert_eq!(decimal_string(100000), "100000");
    assert_eq!(decimal_string(9007199254740993), "9007199254740993");
}

#[test]
fn decimal_of_largest_number() {
    assert_eq!(decimal_string(u64::MAX), "18446744073709551615");
}

#[test]
fn decimal_agrees_with_std_on_powers() {
    let mut n: u64 = 1;
    loop {
        assert_eq!(decimal_string(n), n.to_string());
        assert_eq!(decimal_string(n - 1), (n - 1).to_string());
        match n.checked_mul(7) {
            Some(next) => n = next,
            None => break,
        }
    }
}

#[test]
fn push_decimal_appends() {
    let mut text = String::from("rbps=");
    push_decimal(&mut text, 1048576);
    assert_eq!(text, "rbps=1048576");
}

#[test]
fn signed_decimal_of_negative_has_minus_sign() {
    let mut text = String::new();
    push_signed_decimal(&mut text, -1);
    assert_eq!(text, "-1");
}

#[test]
fn signed_decimal_of_extremes() {
    let mut least = String::new();
    push_signed_decimal(&mut least, i64::MIN);
    assert_eq!(least, "-9223372036854775808");
    let mut most = String::new();
    push_signed_decimal(&mut most, i64::MAX);
    assert_eq!(most, "9223372036854775807");
}

#[test]
fn signed_decimal_of_non_negative_has_no_sign() {
    let mut text = String::from("8:");
    push_signed_decimal(&mut text, 0);
    assert_eq!(text, "8:0");
}

#[test]
fn limit_max_is_the_word_max() {
    assert_eq!(Limit::Max.encode(), "max");
}

#[test]
fn limit_value_is_decimal() {
    assert_eq!(Limit::Value(0).encode(), "0");
    assert_eq!(Limit::Value(536870912).encode(), "536870912");
    assert_eq!(Limit::Value(u64::MAX).encode(), "18446744073709551615");
}

#[test]
fn negative_number_means_no_bound() {
    assert_eq!(Limit::from_signed(-1), Limit::Max);
    assert_eq!(Limit::from_signed(i64::MIN), Limit::Max);
}

#[test]
fn non_negative_number_is_the_bound() {
    assert_eq!(Limit::from_signed(0), Limit::Value(0));
    assert_eq!(Limit::from_signed(50000), Limit::Value(50000));
    assert_eq!(Limit::from_signed(i64::MAX), Limit::Value(9223372036854775807));
}
