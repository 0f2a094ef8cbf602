use med_ledger::filters::{br, frac2str};
use med_ledger::rational::{Rational, RationalError};

fn frac(n: i64, d: i64) -> Rational {
    Rational::create(n, d).unwrap()
}

#[test]
fn canonical_text_of_whole_numbers_and_fractions() {
    assert_eq!(frac(5, 1).to_canonical_string(), "5");
    assert_eq!(frac(1, 2).to_canonical_string(), "1/2");
    assert_eq!(frac(-1, 2).to_canonical_string(), "-1/2");
    assert_eq!(frac(0, 5).to_canonical_string(), "0");
    assert_eq!(frac(10, 4).to_canonical_string(), "5/2");
    assert_eq!(frac(-120, 1).to_canonical_string(), "-120");
    assert_eq!(frac(1000, 1001).to_canonical_string(), "1000/1001");
    assert_eq!(
        frac(i64::MIN, i64::MAX).to_canonical_string(),
        "-9223372036854775808/9223372036854775807"
    );
    assert_eq!(frac(i64::MAX, 1).to_canonical_string(), "9223372036854775807");
}

#[test]
fn frac2str_is_the_canonical_text() {
    assert_eq!(frac2str(frac(5, 1)), "5");
    assert_eq!(frac2str(frac(1, 2)), "1/2");
    assert_eq!(frac2str(frac(-3, 6)), "-1/2");
}

#[test]
fn ratio_strings_are_read() {
    assert_eq!(Rational::parse_ratio_string("5"), Ok(frac(5, 1)));
    assert_eq!(Rational::parse_ratio_string("-5"), Ok(frac(-5, 1)));
    assert_eq!(Rational::parse_ratio_string("+5"), Ok(frac(5, 1)));
    assert_eq!(Rational::parse_ratio_string("1/2"), Ok(frac(1, 2)));
    assert_eq!(Rational::parse_ratio_string("2/4"), Ok(frac(1, 2)));
    assert_eq!(Rational::parse_ratio_string("-1/2"), Ok(frac(-1, 2)));
    assert_eq!(Rational::parse_ratio_string("1/-2"), Ok(frac(-1, 2)));
    assert_eq!(Rational::parse_ratio_string("0/9"), Ok(frac(0, 1)));
}

#[test]
fn malformed_ratio_strings_are_rejected() {
    assert_eq!(Rational::parse_ratio_string(""), Err(RationalError::MalformedNumber));
    assert_eq!(Rational::parse_ratio_string("1/2/3"), Err(RationalError::MalformedNumber));
    assert_eq!(Rational::parse_ratio_string("1//2"), Err(RationalError::MalformedNumber));
    assert_eq!(Rational::parse_ratio_string("/2"), Err(RationalError::MalformedNumber));
    assert_eq!(Rational::parse_ratio_string("1/"), Err(RationalError::MalformedNumber));
    assert_eq!(Rational::parse_ratio_string("1.5"), Err(RationalError::MalformedNumber));
    assert_eq!(Rational::parse_ratio_string("a/2"), Err(RationalError::MalformedNumber));
    assert_eq!(Rational::parse_ratio_string("1/b"), Err(RationalError::MalformedNumber));
    assert_eq!(Rational::parse_ratio_string(" 1/2"), Err(RationalError::MalformedNumber));
    assert_eq!(
        Rational::parse_ratio_string("9223372036854775808"),
        Err(RationalError::MalformedNumber)
    );
    assert_eq!(Rational::parse_ratio_string("1/0"), Err(RationalError::InvalidFraction));
    assert_eq!(
        Rational::parse_ratio_string("1/-9223372036854775808"),
        Err(RationalError::ArithmeticOverflow)
    );
}

#[test]
fn canonical_text_reads_back() {
    let values = [
        frac(0, 1),
        frac(5, 1),
        frac(-5, 1),
        frac(1, 2),
        frac(-7, 3),
        frac(i64::MAX, 1),
        frac(i64::MIN, 1),
        frac(i64::MIN, i64::MAX),
        frac(1, i64::MAX),
        frac(1_000_000_007, 998_244_353),
    ];
    for v in values.iter() {
        assert_eq!(Rational::parse_ratio_string(&v.to_canonical_string()), Ok(*v));
    }
}

#[test]
fn line_feeds_become_line_breaks() {
    assert_eq!(br(""), "");
    assert_eq!(br("one line"), "one line");
    assert_eq!(br("two\nlines"), "two<br/>\nlines");
    assert_eq!(br("\n\n"), "<br/>\n<br/>\n");
    assert_eq!(br("täglich\n1×"), "täglich<br/>\n1×");
}
