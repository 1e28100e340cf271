// Tests of the duration parser.

use siligpu::duration::parse_trimmed;
use siligpu::{parse_duration, ParseDurationError};
use std::time::Duration;

#[test]
fn test_parse_duration() {
    assert_eq!(parse_duration("100ms").unwrap(), Duration::from_millis(100));
    assert_eq!(parse_duration("1s").unwrap(), Duration::from_secs(1));
    assert_eq!(parse_duration("1m").unwrap(), Duration::from_secs(60));
    assert_eq!(parse_duration("1h").unwrap(), Duration::from_secs(3600));
    assert_eq!(parse_duration("500").unwrap(), Duration::from_millis(500));
    assert!(parse_duration("invalid").is_err());
}

#[test]
fn integration_parse_duration_various() {
    assert_eq!(parse_duration("100ms").unwrap(), Duration::from_millis(100));
    assert_eq!(parse_duration("1s").unwrap(), Duration::from_secs(1));
    assert_eq!(parse_duration("1m").unwrap(), Duration::from_secs(60));
    assert_eq!(parse_duration("1h").unwrap(), Duration::from_secs(3600));
    assert_eq!(parse_duration("500").unwrap(), Duration::from_millis(500));
    assert_eq!(
        parse_duration("2S").unwrap(),
        Duration::from_secs(2),
        "upper-case unit should parse"
    );
    assert!(matches!(
        parse_duration("invalid"),
        Err(ParseDurationError::InvalidNumber | ParseDurationError::UnsupportedUnit(_))
    ));
    assert!(matches!(parse_duration(""), Err(ParseDurationError::Empty)));
}

#[test]
fn durations_have_the_length_written() {
    assert_eq!(parse_duration("100ms").unwrap().as_nanos(), 100_000_000);
    assert_eq!(parse_duration("7").unwrap().as_nanos(), 7_000_000);
    assert_eq!(parse_duration("3s").unwrap().as_nanos(), 3_000_000_000);
    assert_eq!(parse_duration("2m").unwrap().as_nanos(), 120_000_000_000);
    assert_eq!(parse_duration("2h").unwrap().as_nanos(), 7_200_000_000_000);
    assert_eq!(parse_duration("0").unwrap(), Duration::ZERO);
    assert_eq!(parse_duration("0h").unwrap(), Duration::ZERO);
}

#[test]
fn whitespace_around_is_skipped() {
    assert_eq!(parse_duration("  100ms").unwrap(), Duration::from_millis(100));
    assert_eq!(parse_duration("1s\n").unwrap(), Duration::from_secs(1));
    assert_eq!(parse_duration("\t 5m \r\n").unwrap(), Duration::from_secs(300));
    assert_eq!(parse_duration("\u{a0}12\u{3000}").unwrap(), Duration::from_millis(12));
}

#[test]
fn whitespace_alone_is_empty() {
    assert_eq!(parse_duration(""), Err(ParseDurationError::Empty));
    assert_eq!(parse_duration("   "), Err(ParseDurationError::Empty));
    assert_eq!(parse_duration("\n\t"), Err(ParseDurationError::Empty));
}

#[test]
fn whitespace_inside_is_no_number() {
    assert_eq!(parse_duration("1 0"), Err(ParseDurationError::InvalidNumber));
    assert_eq!(parse_duration("10 ms"), Err(ParseDurationError::InvalidNumber));
    assert_eq!(parse_duration("1 s"), Err(ParseDurationError::InvalidNumber));
}

#[test]
fn units_in_either_case() {
    assert_eq!(parse_duration("100MS").unwrap(), Duration::from_millis(100));
    assert_eq!(parse_duration("100Ms").unwrap(), Duration::from_millis(100));
    assert_eq!(parse_duration("100mS").unwrap(), Duration::from_millis(100));
    assert_eq!(parse_duration("3M").unwrap(), Duration::from_secs(180));
    assert_eq!(parse_duration("3H").unwrap(), Duration::from_secs(10800));
}

#[test]
fn a_unit_without_a_number_is_no_number() {
    assert_eq!(parse_duration("ms"), Err(ParseDurationError::InvalidNumber));
    assert_eq!(parse_duration("s"), Err(ParseDurationError::InvalidNumber));
    assert_eq!(parse_duration("m"), Err(ParseDurationError::InvalidNumber));
    assert_eq!(parse_duration("h"), Err(ParseDurationError::InvalidNumber));
    assert_eq!(parse_duration("+"), Err(ParseDurationError::InvalidNumber));
    assert_eq!(parse_duration("+s"), Err(ParseDurationError::InvalidNumber));
}

#[test]
fn numbers_take_a_plus_and_digits_only() {
    assert_eq!(parse_duration("+5s").unwrap(), Duration::from_secs(5));
    assert_eq!(parse_duration("007").unwrap(), Duration::from_millis(7));
    assert_eq!(parse_duration("-5s"), Err(ParseDurationError::InvalidNumber));
    assert_eq!(parse_duration("++5"), Err(ParseDurationError::InvalidNumber));
    assert_eq!(parse_duration("1.5s"), Err(ParseDurationError::InvalidNumber));
    assert_eq!(parse_duration("1_000"), Err(ParseDurationError::InvalidNumber));
    assert_eq!(parse_duration("xs"), Err(ParseDurationError::InvalidNumber));
    assert_eq!(parse_duration("1ss"), Err(ParseDurationError::InvalidNumber));
    assert_eq!(parse_duration("1\u{662}"), Err(ParseDurationError::InvalidNumber));
}

#[test]
fn an_unknown_unit_is_named_in_lower_case() {
    assert_eq!(
        parse_duration("1x"),
        Err(ParseDurationError::UnsupportedUnit("1x".to_string()))
    );
    assert_eq!(
        parse_duration("  10Day "),
        Err(ParseDurationError::UnsupportedUnit("10day".to_string()))
    );
    assert_eq!(parse_duration("10Days"), Err(ParseDurationError::InvalidNumber));
    assert_eq!(
        parse_duration("invalid"),
        Err(ParseDurationError::UnsupportedUnit("invalid".to_string()))
    );
    assert_eq!(
        parse_duration("5\u{b5}S"),
        Err(ParseDurationError::InvalidNumber)
    );
    assert_eq!(
        parse_duration("Q\u{c9}"),
        Err(ParseDurationError::UnsupportedUnit("q\u{c9}".to_string()))
    );
}

#[test]
fn the_largest_numbers() {
    assert_eq!(
        parse_duration("18446744073709551615").unwrap(),
        Duration::from_millis(u64::MAX)
    );
    assert_eq!(
        parse_duration("18446744073709551615s").unwrap(),
        Duration::from_secs(u64::MAX)
    );
    assert_eq!(
        parse_duration("000000000000000000000000000018446744073709551615ms").unwrap(),
        Duration::from_millis(u64::MAX)
    );
    assert_eq!(
        parse_duration("18446744073709551616"),
        Err(ParseDurationError::InvalidNumber)
    );
    assert_eq!(
        parse_duration("99999999999999999999999s"),
        Err(ParseDurationError::InvalidNumber)
    );
    assert_eq!(
        parse_duration("307445734561825860m").unwrap(),
        Duration::from_secs(18446744073709551600)
    );
    assert_eq!(
        parse_duration("307445734561825861m"),
        Err(ParseDurationError::InvalidNumber)
    );
    assert_eq!(
        parse_duration("5124095576030431h").unwrap(),
        Duration::from_secs(18446744073709551600)
    );
    assert_eq!(
        parse_duration("5124095576030432h"),
        Err(ParseDurationError::InvalidNumber)
    );
}

#[test]
fn trimmed_text_is_read_as_it_stands() {
    let text: Vec<char> = "250Ms".chars().collect();
    assert_eq!(parse_trimmed(&text).unwrap(), Duration::from_millis(250));
    let blank: Vec<char> = " 1s".chars().collect();
    assert_eq!(parse_trimmed(&blank), Err(ParseDurationError::InvalidNumber));
    assert_eq!(parse_trimmed(&[]), Err(ParseDurationError::Empty));
}

#[test]
fn parse_errors_have_messages() {
    assert_eq!(ParseDurationError::Empty.message(), "Duration string is empty");
    assert_eq!(
        ParseDurationError::InvalidNumber.message(),
        "Invalid number in duration"
    );
    assert_eq!(
        ParseDurationError::UnsupportedUnit("1x".to_string()).message(),
        "Unsupported duration unit: 1x"
    );
}
