use todo_api::decimal::{append_decimal, decimal_string};

#[test]
fn zero_is_a_single_digit() {
    assert_eq!(decimal_string(0), "0");
}

#[test]
fn small_numbers() {
    assert_eq!(decimal_string(7), "7");
    assert_eq!(decimal_string(9), "9");
    assert_eq!(decimal_string(10), "10");
    assert_eq!(decimal_string(42), "42");
    assert_eq!(decimal_string(100), "100");
    assert_eq!(decimal_string(1234567890), "1234567890");
}

#[test]
fn negative_numbers_carry_a_minus_sign() {
    assert_eq!(decimal_string(-1), "-1");
    assert_eq!(decimal_string(-10), "-10");
    assert_eq!(decimal_string(-305), "-305");
}

#[test]
fn the_ends_of_the_range() {
    assert_eq!(decimal_string(i32::MAX), "2147483647");
    assert_eq!(decimal_string(i32::MIN), "-2147483648");
}

#[test]
fn decimal_agrees_with_the_standard_formatting() {
    let samples = [0, 1, -1, 9, 10, 11, 99, 100, 101, 999999, -999999, 65536, i32::MAX, i32::MIN];
    for value in samples {
        assert_eq!(decimal_string(value), format!("{}", value));
    }
}

#[test]
fn append_decimal_keeps_what_was_there() {
    let mut out = String::from("id=");
    append_decimal(&mut out, -27);
    assert_eq!(out, "id=-27");
    append_decimal(&mut out, 0);
    assert_eq!(out, "id=-270");
}

#[test]
fn different_numbers_have_different_forms() {
    let samples = [0, 1, -1, 10, -10, 11, 101, 110, 1000000, i32::MAX, i32::MIN, i32::MIN + 1];
    for (i, a) in samples.iter().enumerate() {
        for b in samples.iter().skip(i + 1) {
            assert_ne!(decimal_string(*a), decimal_string(*b));
        }
    }
}
