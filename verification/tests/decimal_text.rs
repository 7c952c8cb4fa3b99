use fetchr::decimal::{parse_decimal, usize_to_string};

#[test]
fn formats_small_numbers() {
    assert_eq!(usize_to_string(0), "0");
    assert_eq!(usize_to_string(7), "7");
    assert_eq!(usize_to_string(10), "10");
    assert_eq!(usize_to_string(249), "249");
    assert_eq!(usize_to_string(1000), "1000");
}

#[test]
fn formats_large_numbers() {
    assert_eq!(usize_to_string(usize::MAX), usize::MAX.to_string());
}

#[test]
fn parses_plain_decimals() {
    assert_eq!(parse_decimal("0"), Some(0));
    assert_eq!(parse_decimal("1000"), Some(1000));
    assert_eq!(parse_decimal("0042"), Some(42));
}

#[test]
fn rejects_empty_and_non_digits() {
    assert_eq!(parse_decimal(""), None);
    assert_eq!(parse_decimal("12a"), None);
    assert_eq!(parse_decimal("-5"), None);
    assert_eq!(parse_decimal(" 12"), None);
    assert_eq!(parse_decimal("1 2"), None);
}

#[test]
fn rejects_values_beyond_usize() {
    assert_eq!(parse_decimal("999999999999999999999999999999"), None);
    assert_eq!(parse_decimal(&usize::MAX.to_string()), Some(usize::MAX));
}

#[test]
fn round_trip_format_then_parse() {
    for n in [0usize, 1, 9, 10, 99, 100, 12345, usize::MAX] {
        assert_eq!(parse_decimal(&usize_to_string(n)), Some(n));
    }
}
