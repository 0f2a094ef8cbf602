use med_ledger::digits::IntegerError;
use med_ledger::rational::Rational;
use med_ledger::util::{parse_decimal, ParseDecimalError};

fn test_parse_decimal(expnum: i64, expden: i64, text: &str) {
    let rat = parse_decimal(text).unwrap();
    assert_eq!(expnum, rat.numer());
    assert_eq!(expden, rat.denom());
}

#[test]
fn test_parse_no_dot() {
    test_parse_decimal(0, 1, "0");
    test_parse_decimal(5, 1, "5");
    test_parse_decimal(128, 1, "128");
    test_parse_decimal(-5, 1, "-5");
    test_parse_decimal(-128, 1, "-128");
}

#[test]
fn test_parse_trailing_dot() {
    test_parse_decimal(0, 1, "0.");
    test_parse_decimal(5, 1, "5.");
    test_parse_decimal(128, 1, "128.");
    test_parse_decimal(-5, 1, "-5.");
    test_parse_decimal(-128, 1, "-128.");
}

#[test]
fn test_parse_leading_dot() {
    test_parse_decimal(0, 1, ".0");
    test_parse_decimal(1, 2, ".5");
    test_parse_decimal(16, 125, ".128");
    test_parse_decimal(-1, 2, "-.5");
    test_parse_decimal(-16, 125, "-.128");
}

#[test]
fn test_parse_leading_zero_dot() {
    test_parse_decimal(0, 1, "0.0");
    test_parse_decimal(1, 2, "0.5");
    test_parse_decimal(16, 125, "0.128");
    test_parse_decimal(-1, 2, "-0.5");
    test_parse_decimal(-16, 125, "-0.128");
}

#[test]
fn test_parse_mid_dot() {
    test_parse_decimal(32, 25, "1.28");
    test_parse_decimal(64, 5, "12.8");
    test_parse_decimal(-32, 25, "-1.28");
    test_parse_decimal(-64, 5, "-12.8");
}

#[test]
fn parse_decimal_agrees_with_create() {
    assert_eq!(parse_decimal("1.28"), Ok(Rational::create(32, 25).unwrap()));
    assert_eq!(parse_decimal(".5"), Ok(Rational::create(1, 2).unwrap()));
    assert_eq!(parse_decimal("2.50"), Ok(Rational::create(5, 2).unwrap()));
}

#[test]
fn parse_decimal_counts_the_dots() {
    assert_eq!(parse_decimal("1.2.3"), Err(ParseDecimalError::TooManyDots(2)));
    assert_eq!(parse_decimal("-..."), Err(ParseDecimalError::TooManyDots(3)));
    assert_eq!(parse_decimal("x.y.z"), Err(ParseDecimalError::TooManyDots(2)));
}

#[test]
fn parse_decimal_rejects_a_mantissa_that_is_not_digits() {
    let empty = Err(ParseDecimalError::MantissaParsing(IntegerError::Empty));
    let invalid = Err(ParseDecimalError::MantissaParsing(IntegerError::InvalidDigit));
    let too_large = Err(ParseDecimalError::MantissaParsing(IntegerError::TooLarge));
    assert_eq!(parse_decimal(""), empty);
    assert_eq!(parse_decimal("-"), empty);
    assert_eq!(parse_decimal("+"), empty);
    assert_eq!(parse_decimal("."), empty);
    assert_eq!(parse_decimal("-."), empty);
    assert_eq!(parse_decimal("abc"), invalid);
    assert_eq!(parse_decimal("1,5"), invalid);
    assert_eq!(parse_decimal("1 "), invalid);
    assert_eq!(parse_decimal(" 1"), invalid);
    assert_eq!(parse_decimal("1e3"), invalid);
    assert_eq!(parse_decimal("--5"), invalid);
    assert_eq!(parse_decimal("-+5"), invalid);
    assert_eq!(parse_decimal("+-5"), invalid);
    assert_eq!(parse_decimal("++5"), invalid);
    assert_eq!(parse_decimal(".-5"), invalid);
    assert_eq!(parse_decimal(".+5"), invalid);
    assert_eq!(parse_decimal("5-"), invalid);
    assert_eq!(parse_decimal("1.-2"), invalid);
    assert_eq!(parse_decimal("--9223372036854775808"), invalid);
    assert_eq!(parse_decimal("9223372036854775808"), too_large);
    assert_eq!(parse_decimal("-9223372036854775808"), too_large);
    assert_eq!(parse_decimal("+9223372036854775808"), too_large);
    assert_eq!(parse_decimal("1.0000000000000000000"), too_large);
    assert_eq!(parse_decimal("99999999999999999999999999999999999999999"), too_large);
}

#[test]
fn parse_decimal_takes_one_leading_sign() {
    test_parse_decimal(5, 1, "+5");
    test_parse_decimal(1, 2, "+.5");
    test_parse_decimal(-1, 2, "-.5");
    test_parse_decimal(3, 2, "+1.5");
    test_parse_decimal(0, 1, "-0");
    test_parse_decimal(9223372036854775807, 1, "9223372036854775807");
    test_parse_decimal(9223372036854775807, 1, "+9223372036854775807");
    test_parse_decimal(-9223372036854775807, 1, "-9223372036854775807");
    test_parse_decimal(7, 1, "007");
    test_parse_decimal(7, 1, "000000000000000000000000000007");
}

#[test]
fn parse_decimal_limits_the_places() {
    test_parse_decimal(1, 1_000_000_000_000_000_000, "0.000000000000000001");
    test_parse_decimal(1, 1_000_000_000_000_000_000, ".000000000000000001");
    assert_eq!(
        parse_decimal("0.0000000000000000001"),
        Err(ParseDecimalError::DenominatorTooLarge)
    );
    assert_eq!(parse_decimal(".0000000000000000000"), Err(ParseDecimalError::DenominatorTooLarge));
}

#[test]
fn errors_are_put_in_words() {
    assert_eq!(ParseDecimalError::TooManyDots(2).describe(), "too many (2) dots");
    assert_eq!(ParseDecimalError::TooManyDots(12345).describe(), "too many (12345) dots");
    assert_eq!(parse_decimal("1.2.3").unwrap_err().describe(), "too many (2) dots");
    assert_eq!(
        parse_decimal("abc").unwrap_err().describe(),
        "error parsing mantissa: invalid digit found in string"
    );
    assert_eq!(
        parse_decimal("").unwrap_err().describe(),
        "error parsing mantissa: cannot parse integer from empty string"
    );
    assert_eq!(
        parse_decimal("99999999999999999999").unwrap_err().describe(),
        "error parsing mantissa: number too large to fit in target type"
    );
    assert_eq!(
        parse_decimal("--5").unwrap_err().describe(),
        "error parsing mantissa: invalid digit found in string"
    );
    assert_eq!(
        ParseDecimalError::MantissaParsing(IntegerError::TooSmall).describe(),
        "error parsing mantissa: number too small to fit in target type"
    );
    assert_eq!(ParseDecimalError::DenominatorTooLarge.describe(), "denominator too large");
}
