use session_bot::text::{i64_to_string, two_digit_string, u64_to_string};

#[test]
fn renders_unsigned_decimals() {
    assert_eq!(u64_to_string(0), "0");
    assert_eq!(u64_to_string(7), "7");
    assert_eq!(u64_to_string(42), "42");
    assert_eq!(u64_to_string(1234567890), "1234567890");
    assert_eq!(u64_to_string(u64::MAX), "18446744073709551615");
}

#[test]
fn renders_signed_decimals() {
    assert_eq!(i64_to_string(0), "0");
    assert_eq!(i64_to_string(17), "17");
    assert_eq!(i64_to_string(-5), "-5");
    assert_eq!(i64_to_string(-1234567890), "-1234567890");
    assert_eq!(i64_to_string(i64::MIN + 1), "-9223372036854775807");
}

#[test]
fn pads_clock_digits() {
    assert_eq!(two_digit_string(0), "00");
    assert_eq!(two_digit_string(5), "05");
    assert_eq!(two_digit_string(10), "10");
    assert_eq!(two_digit_string(23), "23");
    assert_eq!(two_digit_string(59), "59");
}
