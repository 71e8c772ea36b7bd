use rust_basics::number::{parse_line, parse_number};

#[test]
fn parses_plain_digits() {
    assert_eq!(parse_number("42"), Some(42));
    assert_eq!(parse_number("0"), Some(0));
    assert_eq!(parse_number("007"), Some(7));
}

#[test]
fn parses_leading_plus() {
    assert_eq!(parse_number("+5"), Some(5));
    assert_eq!(parse_number("+"), None);
    assert_eq!(parse_number("++5"), None);
}

#[test]
fn rejects_non_numbers() {
    assert_eq!(parse_number(""), None);
    assert_eq!(parse_number("abc"), None);
    assert_eq!(parse_number("-1"), None);
    assert_eq!(parse_number("4 2"), None);
    assert_eq!(parse_number("12a"), None);
}

#[test]
fn largest_u32_and_one_past() {
    assert_eq!(parse_number("4294967295"), Some(u32::MAX));
    assert_eq!(parse_number("4294967296"), None);
    assert_eq!(parse_number("4294967300"), None);
    assert_eq!(parse_number("99999999999"), None);
}

#[test]
fn agrees_with_std_parse() {
    for t in ["0", "1", "+12", "4294967295", "4294967296", "", "x", "-0", "1_0", " 1"] {
        assert_eq!(parse_number(t), t.parse::<u32>().ok(), "on {:?}", t);
    }
}

#[test]
fn line_is_trimmed_before_parsing() {
    assert_eq!(parse_line("5\n"), Some(5));
    assert_eq!(parse_line("  17 \r\n"), Some(17));
    assert_eq!(parse_line("\t\n"), None);
    assert_eq!(parse_line("abc\n"), None);
}
