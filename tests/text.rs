use poller::text::{parse_decimal, push_decimal, push_signed_decimal};

#[test]
fn parses_plain_numbers() {
    assert_eq!(parse_decimal("0"), Some(0));
    assert_eq!(parse_decimal("42"), Some(42));
    assert_eq!(parse_decimal("007"), Some(7));
    assert_eq!(parse_decimal("+15"), Some(15));
    assert_eq!(parse_decimal("-15"), Some(-15));
}

#[test]
fn parses_the_extremes() {
    assert_eq!(parse_decimal("9223372036854775807"), Some(i64::MAX));
    assert_eq!(parse_decimal("-9223372036854775808"), Some(i64::MIN));
    assert_eq!(parse_decimal("9223372036854775808"), None);
    assert_eq!(parse_decimal("-9223372036854775809"), None);
    assert_eq!(parse_decimal("123456789012345678901234567890"), None);
}

#[test]
fn rejects_non_numbers() {
    assert_eq!(parse_decimal(""), None);
    assert_eq!(parse_decimal("-"), None);
    assert_eq!(parse_decimal("+"), None);
    assert_eq!(parse_decimal("4 2"), None);
    assert_eq!(parse_decimal("1.5"), None);
    assert_eq!(parse_decimal("--1"), None);
    assert_eq!(parse_decimal("x1"), None);
}

#[test]
fn writes_decimals() {
    let mut s = String::from("n=");
    push_decimal(&mut s, 1700000000);
    assert_eq!(s, "n=1700000000");
    let mut s = String::new();
    push_signed_decimal(&mut s, -117311);
    assert_eq!(s, "-117311");
    let mut s = String::new();
    push_signed_decimal(&mut s, i64::MIN);
    assert_eq!(s, "-9223372036854775808");
    let mut s = String::new();
    push_decimal(&mut s, u64::MAX);
    assert_eq!(s, "18446744073709551615");
}
