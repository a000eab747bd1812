use fs_scan::decimal::to_decimal;
use fs_scan::nice_number;

#[test]
fn decimal_rendering() {
    assert_eq!(to_decimal(0), "0");
    assert_eq!(to_decimal(7), "7");
    assert_eq!(to_decimal(10), "10");
    assert_eq!(to_decimal(1_234_567_890), "1234567890");
    assert_eq!(to_decimal(u64::MAX), "18446744073709551615");
}

#[test]
fn nice_number_below_a_thousand_is_plain() {
    assert_eq!(nice_number(0), "0");
    assert_eq!(nice_number(999), "999");
}

#[test]
fn nice_number_thousands() {
    assert_eq!(nice_number(1_000), "1K (1000)");
    assert_eq!(nice_number(12_345), "12K (12345)");
    assert_eq!(nice_number(999_999), "999K (999999)");
}

#[test]
fn nice_number_millions() {
    assert_eq!(nice_number(1_000_000), "1M (1000000)");
    assert_eq!(nice_number(123_456_789), "123M (123456789)");
}
