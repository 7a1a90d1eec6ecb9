use resize_text::format_dims;
use resize_text::u32_to_decimal;

#[test]
fn test_decimal_zero() {
    assert_eq!(u32_to_decimal(0), "0");
}

#[test]
fn test_decimal_single_digit() {
    assert_eq!(u32_to_decimal(7), "7");
}

#[test]
fn test_decimal_round_number() {
    assert_eq!(u32_to_decimal(10), "10");
    assert_eq!(u32_to_decimal(100), "100");
}

#[test]
fn test_decimal_all_digits() {
    assert_eq!(u32_to_decimal(1234567890), "1234567890");
}

#[test]
fn test_decimal_largest() {
    assert_eq!(u32_to_decimal(u32::MAX), "4294967295");
}

#[test]
fn test_format_zero() {
    assert_eq!(format_dims(0, 0), "0.0 x 0.0");
}

#[test]
fn test_format_fraction_only() {
    assert_eq!(format_dims(5, 9), "0.5 x 0.9");
}

#[test]
fn test_format_mixed() {
    assert_eq!(format_dims(1000, 1000), "100.0 x 100.0");
    assert_eq!(format_dims(123, 45), "12.3 x 4.5");
}

#[test]
fn test_format_largest() {
    assert_eq!(format_dims(u32::MAX, u32::MAX), "429496729.5 x 429496729.5");
}
