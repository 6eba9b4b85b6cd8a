use myusage::text::{decimal_text, pad_left_text, pad_right_text, zero_padded_text};

#[test]
fn decimal_digits() {
    assert_eq!(decimal_text(0), "0");
    assert_eq!(decimal_text(7), "7");
    assert_eq!(decimal_text(10), "10");
    assert_eq!(decimal_text(90210), "90210");
    assert_eq!(decimal_text(u128::MAX), u128::MAX.to_string());
}

#[test]
fn zero_padding() {
    assert_eq!(zero_padded_text(5, 2), "05");
    assert_eq!(zero_padded_text(42, 2), "42");
    assert_eq!(zero_padded_text(123, 2), "123");
    assert_eq!(zero_padded_text(7, 4), "0007");
    assert_eq!(zero_padded_text(0, 0), "0");
}

#[test]
fn padding_counts_characters_not_bytes() {
    assert_eq!(pad_right_text("ab", 5, " "), "ab   ");
    assert_eq!(pad_right_text("คืน", 5, " "), "คืน  ");
    assert_eq!(pad_left_text("คืน", 4, "*"), "*คืน");
    assert_eq!(pad_left_text("long text", 3, " "), "long text");
    assert_eq!(pad_right_text("", 0, " "), "");
}
