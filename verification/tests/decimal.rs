use slice_sum::decimal::{push_decimal, push_signed_decimal};

fn unsigned_text(n: u64) -> String {
    let mut out = String::new();
    push_decimal(&mut out, n);
    out
}

fn signed_text(x: i32) -> String {
    let mut out = String::new();
    push_signed_decimal(&mut out, x);
    out
}

#[test]
fn zero_is_a_single_digit() {
    assert_eq!(unsigned_text(0), "0");
    assert_eq!(signed_text(0), "0");
}

#[test]
fn every_digit_has_its_own_character() {
    assert_eq!(unsigned_text(1234567890), "1234567890");
    for d in 0..10u64 {
        assert_eq!(unsigned_text(d), format!("{}", d));
    }
}

#[test]
fn digits_come_most_significant_first() {
    assert_eq!(unsigned_text(10), "10");
    assert_eq!(unsigned_text(15), "15");
    assert_eq!(unsigned_text(100), "100");
    assert_eq!(unsigned_text(907), "907");
}

#[test]
fn largest_unsigned_value_is_written_in_full() {
    assert_eq!(unsigned_text(u64::MAX), "18446744073709551615");
}

#[test]
fn negative_numbers_get_a_minus_sign() {
    assert_eq!(signed_text(-1), "-1");
    assert_eq!(signed_text(-15), "-15");
    assert_eq!(signed_text(15), "15");
}

#[test]
fn extreme_signed_values_are_written_in_full() {
    assert_eq!(signed_text(i32::MAX), "2147483647");
    assert_eq!(signed_text(i32::MIN), "-2147483648");
}

#[test]
fn decimal_text_is_appended_to_what_is_there() {
    let mut out = String::from("n = ");
    push_decimal(&mut out, 42);
    assert_eq!(out, "n = 42");
    push_signed_decimal(&mut out, -7);
    assert_eq!(out, "n = 42-7");
}

#[test]
fn decimal_text_agrees_with_std_formatting() {
    let mut x: i32 = 7;
    for _ in 0..500 {
        x = x.wrapping_mul(1_103_515_245).wrapping_add(12_345);
        assert_eq!(signed_text(x), format!("{}", x));
        let n = (x as u32 as u64) * 3_000_000_007;
        assert_eq!(unsigned_text(n), format!("{}", n));
    }
}
