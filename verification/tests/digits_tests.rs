use chat_scraper::digits::parse_u64_decimal;

#[test]
fn parse_reads_plain_numbers() {
    assert_eq!(parse_u64_decimal("0"), Some(0));
    assert_eq!(parse_u64_decimal("42"), Some(42));
    assert_eq!(parse_u64_decimal("600000"), Some(600000));
}

#[test]
fn parse_reads_the_largest_value() {
    assert_eq!(parse_u64_decimal("18446744073709551615"), Some(u64::MAX));
}

#[test]
fn parse_rejects_overflow() {
    assert_eq!(parse_u64_decimal("18446744073709551616"), None);
    assert_eq!(parse_u64_decimal("99999999999999999999999"), None);
}

#[test]
fn parse_rejects_empty_input() {
    assert_eq!(parse_u64_decimal(""), None);
}

#[test]
fn parse_rejects_non_digits() {
    assert_eq!(parse_u64_decimal("12a"), None);
    assert_eq!(parse_u64_decimal("-5"), None);
    assert_eq!(parse_u64_decimal("1.5"), None);
    assert_eq!(parse_u64_decimal(" 7"), None);
}
