use xchain_sdk::decimal::i64_to_dec;
use xchain_sdk::decimal::u64_to_dec;

#[test]
fn test_u64_to_dec_small() {
    assert_eq!(u64_to_dec(0), "0");
    assert_eq!(u64_to_dec(7), "7");
    assert_eq!(u64_to_dec(10), "10");
    assert_eq!(u64_to_dec(50), "50");
    assert_eq!(u64_to_dec(12345), "12345");
}

#[test]
fn test_u64_to_dec_extremes() {
    assert_eq!(u64_to_dec(u64::MAX), "18446744073709551615");
    assert_eq!(u64_to_dec(1_000_000), "1000000");
}

#[test]
fn test_i64_to_dec_signs() {
    assert_eq!(i64_to_dec(0), "0");
    assert_eq!(i64_to_dec(50), "50");
    assert_eq!(i64_to_dec(-7), "-7");
    assert_eq!(i64_to_dec(-100), "-100");
}

#[test]
fn test_i64_to_dec_extremes() {
    assert_eq!(i64_to_dec(i64::MAX), "9223372036854775807");
    assert_eq!(i64_to_dec(i64::MIN), "-9223372036854775808");
}
