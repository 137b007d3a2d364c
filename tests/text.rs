use meowith_connector::text::{parse_u64, push_decimal, push_signed_decimal};

#[test]
fn parse_plain_and_signed() {
    assert_eq!(parse_u64("0"), Some(0));
    assert_eq!(parse_u64("10485760"), Some(10485760));
    assert_eq!(parse_u64("+7"), Some(7));
}

#[test]
fn parse_rejects_malformed() {
    assert_eq!(parse_u64(""), None);
    assert_eq!(parse_u64("+"), None);
    assert_eq!(parse_u64("-1"), None);
    assert_eq!(parse_u64("12a"), None);
    assert_eq!(parse_u64(" 12"), None);
}

#[test]
fn parse_limits() {
    assert_eq!(parse_u64("18446744073709551615"), Some(u64::MAX));
    assert_eq!(parse_u64("18446744073709551616"), None);
    assert_eq!(parse_u64("99999999999999999999x"), None);
}

#[test]
fn decimal_rendering() {
    let mut s = String::from("n=");
    push_decimal(&mut s, 4194304);
    assert_eq!(s, "n=4194304");
    let mut t = String::new();
    push_signed_decimal(&mut t, -42);
    assert_eq!(t, "-42");
}
