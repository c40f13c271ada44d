use necko_xray::datetime::{parse_seconds, DurationError};

#[test]
fn parse_seconds_test() {
    assert_eq!(parse_seconds("2s").unwrap(), 2);
    assert_eq!(parse_seconds("1d").unwrap(), 86400);
    assert_eq!(parse_seconds("1day12h").unwrap(), 1 * 86400 + 12 * 3600);
    assert_eq!(parse_seconds("30min30sec").unwrap(), 30 * 60 + 30);
    assert_eq!(parse_seconds("2s 1d 48h 9w").unwrap(), 2 + 1 * 86400 + 48 * 3600 + 9 * 7 * 86400);
}

#[test]
fn bare_number_is_seconds() {
    assert_eq!(parse_seconds("45").unwrap(), 45);
    assert_eq!(parse_seconds("").unwrap(), 0);
    assert_eq!(parse_seconds("   ").unwrap(), 0);
}

#[test]
fn units_are_case_insensitive() {
    assert_eq!(parse_seconds("2H").unwrap(), 7200);
    assert_eq!(parse_seconds("1Mo").unwrap(), 30 * 86400);
    assert_eq!(parse_seconds("1q").unwrap(), 90 * 86400);
    assert_eq!(parse_seconds("1y").unwrap(), 365 * 86400);
    assert_eq!(parse_seconds("3weeks").unwrap(), 3 * 7 * 86400);
}

#[test]
fn unsupported_unit_is_refused() {
    assert_eq!(parse_seconds("5x"), Err(DurationError::UnsupportedUnit));
    assert_eq!(parse_seconds("5parsecs"), Err(DurationError::UnsupportedUnit));
}

#[test]
fn unexpected_character_is_refused() {
    assert_eq!(parse_seconds("5s!"), Err(DurationError::UnexpectedChar('!')));
    assert_eq!(parse_seconds("-5s"), Err(DurationError::UnexpectedChar('-')));
}

#[test]
fn number_too_long_is_invalid() {
    assert_eq!(parse_seconds("99999999999999999999s"), Err(DurationError::InvalidNumber));
}

#[test]
fn product_overflow_is_reported() {
    assert_eq!(parse_seconds("999999999999y"), Err(DurationError::MultiplyOverflow));
}

#[test]
fn sum_overflow_is_reported() {
    assert_eq!(parse_seconds("18446744073709551615s 1s"), Err(DurationError::AddOverflow));
    assert_eq!(parse_seconds("18446744073709551615").unwrap(), u64::MAX);
}

#[test]
fn letters_before_a_number_stay_pending() {
    assert_eq!(parse_seconds("h 5"), Ok(5 * 3600));
    assert_eq!(parse_seconds("x 5"), Err(DurationError::UnsupportedUnit));
    assert_eq!(parse_seconds("5s10"), Ok(15));
}

#[test]
fn letters_without_a_number_are_ignored() {
    assert_eq!(parse_seconds("3 weeks"), Ok(3));
    assert_eq!(parse_seconds("5 parsecs"), Ok(5));
}

#[test]
fn tokens_add_up() {
    assert_eq!(parse_seconds("1d 2h 30m "), Ok(86400 + 2 * 3600 + 30 * 60));
    assert_eq!(parse_seconds("7 1w 3mon "), Ok(7 + 7 * 86400 + 3 * 30 * 86400));
}
