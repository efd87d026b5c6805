use zz_metasvr::text::{decimal_text, signed_decimal_text};

#[test]
fn signed_decimal_of_numbers() {
    assert_eq!(signed_decimal_text(0), "0");
    assert_eq!(signed_decimal_text(42), "42");
    assert_eq!(signed_decimal_text(-42), "-42");
    assert_eq!(signed_decimal_text(i64::MIN), "-9223372036854775808");
    assert_eq!(signed_decimal_text(i64::MAX), "9223372036854775807");
    assert_eq!(decimal_text(100), "100");
}
