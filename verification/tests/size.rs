use fnd::size::parse;
use fnd::size::SizeParseError;
use fnd::Size;
use fnd::SizeComparison;

#[test]
fn test_parse_kb() {
    assert_eq!(parse("3k").unwrap(), SizeComparison::EqualTo(Size::Kilobyte(3)));
}

#[test]
fn test_parse_greater_than() {
    assert_eq!(parse("+4G").unwrap(), SizeComparison::GreaterThan(Size::Gigabyte(4)));
}

#[test]
fn test_parse_less_than() {
    assert_eq!(parse("-150M").unwrap(), SizeComparison::LessThan(Size::Megabyte(150)));
}

#[test]
fn test_parse_all_units() {
    assert_eq!(parse("1k").unwrap(), SizeComparison::EqualTo(Size::Kilobyte(1)));
    assert_eq!(parse("2M").unwrap(), SizeComparison::EqualTo(Size::Megabyte(2)));
    assert_eq!(parse("3G").unwrap(), SizeComparison::EqualTo(Size::Gigabyte(3)));
    assert_eq!(parse("4T").unwrap(), SizeComparison::EqualTo(Size::Terabyte(4)));
    assert_eq!(parse("5P").unwrap(), SizeComparison::EqualTo(Size::Petabyte(5)));
}

#[test]
fn test_parse_rejects_trailing_characters() {
    assert_eq!(parse("3kb"), Err(SizeParseError::TrailingInput));
    assert_eq!(parse("+4Gx"), Err(SizeParseError::TrailingInput));
}

#[test]
fn test_parse_rejects_missing_digits() {
    assert_eq!(parse(""), Err(SizeParseError::MissingDigits));
    assert_eq!(parse("+"), Err(SizeParseError::MissingDigits));
    assert_eq!(parse("-k"), Err(SizeParseError::MissingDigits));
    assert_eq!(parse("abc"), Err(SizeParseError::MissingDigits));
    assert_eq!(parse("+-3k"), Err(SizeParseError::MissingDigits));
}

#[test]
fn test_parse_rejects_bad_unit() {
    assert_eq!(parse("3"), Err(SizeParseError::InvalidUnit));
    assert_eq!(parse("3b"), Err(SizeParseError::InvalidUnit));
    assert_eq!(parse("3K"), Err(SizeParseError::InvalidUnit));
    assert_eq!(parse("3m"), Err(SizeParseError::InvalidUnit));
}

#[test]
fn test_parse_rejects_overflowing_count() {
    assert_eq!(parse("18446744073709551615k").unwrap(), SizeComparison::EqualTo(Size::Kilobyte(u64::MAX)));
    assert_eq!(parse("18446744073709551616k"), Err(SizeParseError::Overflow));
    assert_eq!(parse("99999999999999999999999M"), Err(SizeParseError::Overflow));
}

#[test]
fn test_to_bytes_uses_1024_multipliers() {
    assert_eq!(Size::Kilobyte(3).to_bytes(), 3 * 1024);
    assert_eq!(Size::Megabyte(150).to_bytes(), 150 * 1024 * 1024);
    assert_eq!(Size::Gigabyte(4).to_bytes(), 4 * 1024 * 1024 * 1024);
    assert_eq!(Size::Terabyte(2).to_bytes(), 2 * 1024u64.pow(4));
    assert_eq!(Size::Petabyte(1).to_bytes(), 1024u64.pow(5));
}

#[test]
fn test_equal_to_window_boundaries() {
    let close_to_1k = SizeComparison::EqualTo(Size::Kilobyte(1));
    assert!(close_to_1k.check(1024));
    assert!(!close_to_1k.check(400));
    assert!(!close_to_1k.check(512));
    assert!(close_to_1k.check(513));
    assert!(close_to_1k.check(1535));
    assert!(!close_to_1k.check(1536));
}

#[test]
fn test_greater_and_less_are_strict() {
    let above_1k = SizeComparison::GreaterThan(Size::Kilobyte(1));
    assert!(!above_1k.check(1024));
    assert!(above_1k.check(1025));
    let below_1k = SizeComparison::LessThan(Size::Kilobyte(1));
    assert!(below_1k.check(1023));
    assert!(!below_1k.check(1024));
}

#[test]
fn test_is_in_range() {
    assert!(SizeComparison::EqualTo(Size::Kilobyte(1)).is_in_range());
    assert!(!SizeComparison::EqualTo(Size::Kilobyte(0)).is_in_range());
    assert!(SizeComparison::GreaterThan(Size::Kilobyte(0)).is_in_range());
    assert!(!SizeComparison::GreaterThan(Size::Petabyte(u64::MAX)).is_in_range());
    assert!(SizeComparison::GreaterThan(Size::Petabyte(16383)).is_in_range());
    assert!(!SizeComparison::GreaterThan(Size::Petabyte(16384)).is_in_range());
    assert!(SizeComparison::EqualTo(Size::Petabyte(16383)).is_in_range());
}

#[test]
fn test_parse_error_messages_name_the_cause() {
    assert!(SizeParseError::MissingDigits.message().contains("digit"));
    assert!(SizeParseError::Overflow.message().contains("64"));
    assert!(SizeParseError::InvalidUnit.message().contains("unit"));
    assert!(SizeParseError::TrailingInput.message().contains("after"));
}

#[test]
fn test_from_str_matches_parse() {
    let parsed: SizeComparison = "3k".parse().unwrap();
    assert_eq!(parsed, SizeComparison::EqualTo(Size::Kilobyte(3)));
    let failed: Result<SizeComparison, String> = "3kb".parse();
    assert!(failed.is_err());
}
