use lazyseq::result_class::add_two_and_then;
use lazyseq::result_class::add_two_map;
use lazyseq::result_class::multiply;
use lazyseq::result_class::parse_i32;
use lazyseq::result_class::ParseIntError;

#[test]
fn parse_plain_numbers() {
    assert_eq!(parse_i32("0"), Ok(0));
    assert_eq!(parse_i32("10"), Ok(10));
    assert_eq!(parse_i32("007"), Ok(7));
    assert_eq!(parse_i32("-42"), Ok(-42));
    assert_eq!(parse_i32("+5"), Ok(5));
    assert_eq!(parse_i32("+0"), Ok(0));
}

#[test]
fn parse_extremes() {
    assert_eq!(parse_i32("2147483647"), Ok(i32::MAX));
    assert_eq!(parse_i32("+2147483647"), Ok(i32::MAX));
    assert_eq!(parse_i32("-2147483648"), Ok(i32::MIN));
}

#[test]
fn parse_empty() {
    assert_eq!(parse_i32(""), Err(ParseIntError::Empty));
}

#[test]
fn parse_invalid_digit() {
    assert_eq!(parse_i32("12a"), Err(ParseIntError::InvalidDigit));
    assert_eq!(parse_i32("-"), Err(ParseIntError::InvalidDigit));
    assert_eq!(parse_i32("+"), Err(ParseIntError::InvalidDigit));
    assert_eq!(parse_i32("+-5"), Err(ParseIntError::InvalidDigit));
    assert_eq!(parse_i32("t"), Err(ParseIntError::InvalidDigit));
    assert_eq!(parse_i32(" 5"), Err(ParseIntError::InvalidDigit));
}

#[test]
fn parse_positive_overflow() {
    assert_eq!(parse_i32("2147483648"), Err(ParseIntError::PosOverflow));
    assert_eq!(parse_i32("+2147483648"), Err(ParseIntError::PosOverflow));
    assert_eq!(
        parse_i32("99999999999999999999"),
        Err(ParseIntError::PosOverflow)
    );
}

#[test]
fn parse_negative_overflow() {
    assert_eq!(parse_i32("-2147483649"), Err(ParseIntError::NegOverflow));
    assert_eq!(
        parse_i32("-99999999999999999999"),
        Err(ParseIntError::NegOverflow)
    );
}

#[test]
fn multiply_parses_and_multiplies() {
    assert_eq!(multiply("10", "2"), Ok(20));
    assert_eq!(multiply("4", "2").unwrap(), 8);
    assert_eq!(multiply("-3", "7"), Ok(-21));
}

#[test]
fn multiply_reports_first_error() {
    assert_eq!(multiply("t", "2"), Err(ParseIntError::InvalidDigit));
    assert_eq!(multiply("2", ""), Err(ParseIntError::Empty));
}

#[test]
fn add_two_both_ways() {
    assert_eq!(add_two_map("10"), Ok(12));
    assert_eq!(add_two_map("+5"), Ok(7));
    assert_eq!(add_two_and_then("+5"), Ok(7));
    assert_eq!(add_two_and_then("10"), Ok(12));
    assert_eq!(add_two_map("x"), Err(ParseIntError::InvalidDigit));
    assert_eq!(add_two_and_then(""), Err(ParseIntError::Empty));
}
