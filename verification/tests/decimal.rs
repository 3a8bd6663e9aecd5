use congress::decimal::{parse_u32, u32_to_string};

#[test]
fn printing_decimals() {
    assert_eq!(u32_to_string(0), "0");
    assert_eq!(u32_to_string(7), "7");
    assert_eq!(u32_to_string(118), "118");
    assert_eq!(u32_to_string(u32::MAX), "4294967295");
}

#[test]
fn parsing_decimals() {
    assert_eq!(parse_u32("0"), Some(0));
    assert_eq!(parse_u32("0007"), Some(7));
    assert_eq!(parse_u32("4294967295"), Some(u32::MAX));
    assert_eq!(parse_u32("4294967296"), None);
    assert_eq!(parse_u32("99999999999999999999"), None);
    assert_eq!(parse_u32(""), None);
    assert_eq!(parse_u32("12a"), None);
    assert_eq!(parse_u32("-1"), None);
    assert_eq!(parse_u32(" 1"), None);
}

#[test]
fn round_trip_decimals() {
    for n in [0u32, 1, 9, 10, 99, 100, 1000000, u32::MAX] {
        assert_eq!(parse_u32(&u32_to_string(n)), Some(n));
    }
}
