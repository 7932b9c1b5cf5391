use hitokage_core::decimal::u64_to_decimal;

#[test]
fn decimal_of_small_numbers() {
    assert_eq!(u64_to_decimal(0), "0");
    assert_eq!(u64_to_decimal(7), "7");
    assert_eq!(u64_to_decimal(10), "10");
    assert_eq!(u64_to_decimal(1234), "1234");
}

#[test]
fn decimal_of_largest_number() {
    assert_eq!(u64_to_decimal(u64::MAX), u64::MAX.to_string());
}
