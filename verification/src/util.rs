//! Reading an amount that was typed in as a decimal number, such as `-1.28`,
//! into the exact fraction it stands for.

use crate::digits::{
    integer_error_text, natural_of, natural_text, parse_natural, write_u64, IntegerError,
};
use crate::fraction::{lemma_reduced_in_lowest_terms, Fraction};
use crate::rational::Rational;
use crate::text::to_chars;
use vstd::prelude::*;

verus! {

/// Why a text is not a decimal number that the ledger can hold.
#[derive(Clone, Copy, Debug, PartialEq, Eq, Structural)]
pub enum ParseDecimalError {
    /// The text has more than one `.`; the count is given.
    TooManyDots(usize),
    /// What is left without sign and `.` is not an integer of 64 bits.
    MantissaParsing(IntegerError),
    /// More than 18 places follow the `.`, so the power of ten that the
    /// mantissa is to be divided by is no `i64`.
    DenominatorTooLarge,
}

/// What the error says, in words.
pub open spec fn error_text(error: ParseDecimalError) -> Seq<char> {
    match error {
        ParseDecimalError::TooManyDots(d) => "too many ("@ + natural_text(d as nat) + ") dots"@,
        ParseDecimalError::MantissaParsing(e) => "error parsing mantissa: "@ + (match e {
            IntegerError::Empty => "cannot parse integer from empty string"@,
            IntegerError::InvalidDigit => "invalid digit found in string"@,
            IntegerError::TooLarge => "number too large to fit in target type"@,
            IntegerError::TooSmall => "number too small to fit in target type"@,
        }),
        ParseDecimalError::DenominatorTooLarge => "denominator too large"@,
    }
}

impl ParseDecimalError {
    /// The error in words.
    pub fn describe(&self) -> (text: String)
        ensures
            text@ == error_text(*self),
    {
        match self {
            ParseDecimalError::TooManyDots(d) => {
                let mut text = "too many (".to_owned();
                write_u64(*d as u64, &mut text);
                text.append(") dots");
                text
            },
            ParseDecimalError::MantissaParsing(e) => {
                let mut text = "error parsing mantissa: ".to_owned();
                text.append(integer_error_text(*e));
                text
            },
            ParseDecimalError::DenominatorTooLarge => "denominator too large".to_owned(),
        }
    }
}

/// How many `.` a text holds.
pub open spec fn count_dots(s: Seq<char>) -> nat
    decreases s.len(),
{
    if s.len() == 0 {
        0
    } else {
        count_dots(s.drop_last()) + if s.last() == '.' {
            1nat
        } else {
            0nat
        }
    }
}

/// The text with every `.` taken out.
pub open spec fn without_dots(s: Seq<char>) -> Seq<char>
    decreases s.len(),
{
    if s.len() == 0 {
        s
    } else if s.last() == '.' {
        without_dots(s.drop_last())
    } else {
        without_dots(s.drop_last()).push(s.last())
    }
}

/// How many characters follow the first `.` of a text; 0 where it has none.
pub open spec fn places_after_dot(s: Seq<char>) -> nat
    decreases s.len(),
{
    if s.len() == 0 {
        0
    } else if count_dots(s.drop_last()) > 0 {
        places_after_dot(s.drop_last()) + 1
    } else {
        0
    }
}

pub open spec fn power_of_ten(k: nat) -> nat
    decreases k,
{
    if k == 0 {
        1
    } else {
        10 * power_of_ten((k - 1) as nat)
    }
}

/// The largest power of ten that an `i64` holds is the 18th.
pub const MAX_DECIMAL_PLACES: usize = 18;

/// Whether a text begins with a sign, `-` or `+`.
pub open spec fn has_sign(text: Seq<char>) -> bool {
    text.len() > 0 && (text[0] == '-' || text[0] == '+')
}

/// What a decimal text stands for. One sign may lead, `-` or `+`. What
/// follows may hold one `.`; without it, it has to be digits and nothing
/// else, one at least, that write a number no larger than an `i64` holds.
/// That number is divided by ten for each character after the `.`.
pub open spec fn decimal_of(text: Seq<char>) -> Result<Fraction, ParseDecimalError> {
    let body = if has_sign(text) {
        text.skip(1)
    } else {
        text
    };
    if count_dots(body) > 1 {
        Err(ParseDecimalError::TooManyDots(count_dots(body) as usize))
    } else {
        match natural_of(without_dots(body), i64::MAX as int) {
            Err(e) => Err(ParseDecimalError::MantissaParsing(e)),
            Ok(mantissa) => if places_after_dot(body) > MAX_DECIMAL_PLACES {
                Err(ParseDecimalError::DenominatorTooLarge)
            } else {
                Ok(
                    Fraction::reduced(
                        if text[0] == '-' {
                            -mantissa
                        } else {
                            mantissa as int
                        },
                        power_of_ten(places_after_dot(body)) as int,
                    ),
                )
            },
        }
    }
}

/// Powers of ten grow with the exponent.
pub proof fn lemma_power_of_ten_grows(j: nat, k: nat)
    requires
        j <= k,
    ensures
        0 < power_of_ten(j) <= power_of_ten(k),
    decreases k,
{
    if j < k {
        lemma_power_of_ten_grows(j, (k - 1) as nat);
    } else if k > 0 {
        lemma_power_of_ten_grows((j - 1) as nat, (k - 1) as nat);
    }
}

/// The 18th power of ten fits in an `i64`, the 19th does not.
pub proof fn lemma_power_of_ten_limits()
    ensures
        power_of_ten(18) == 1_000_000_000_000_000_000,
        power_of_ten(19) > i64::MAX,
{
    reveal_with_fuel(power_of_ten, 20);
}

/// What a decimal text stands for is in lowest terms.
pub proof fn lemma_decimal_has_positive_denominator(text: Seq<char>)
    ensures
        decimal_of(text) matches Ok(amount) ==> amount.in_lowest_terms(),
{
    if decimal_of(text) is Ok {
        let body = if has_sign(text) {
            text.skip(1)
        } else {
            text
        };
        let mantissa = natural_of(without_dots(body), i64::MAX as int)->Ok_0;
        let places = places_after_dot(body);
        lemma_power_of_ten_grows(0, places);
        lemma_reduced_in_lowest_terms(
            if text[0] == '-' {
                -mantissa
            } else {
                mantissa as int
            },
            power_of_ten(places) as int,
        );
    }
}

/// Counts the dots of `chars` from `start` on, counts the places after the
/// first of them, and collects what is no dot.
fn take_out_dots(chars: &Vec<char>, start: usize) -> (r: (usize, usize, Vec<char>))
    requires
        start <= chars.len(),
    ensures
        r.0 == count_dots(chars@.skip(start as int)),
        r.1 == places_after_dot(chars@.skip(start as int)),
        r.2@ == without_dots(chars@.skip(start as int)),
{
    let n = chars.len();
    let ghost body = chars@.skip(start as int);
    let mut dot_count: usize = 0;
    let mut places: usize = 0;
    let mut text_no_dot: Vec<char> = Vec::new();
    let mut i: usize = start;
    while i < n
        invariant
            start <= i <= n,
            n == chars.len(),
            body == chars@.skip(start as int),
            dot_count == count_dots(body.take(i - start)),
            places == places_after_dot(body.take(i - start)),
            text_no_dot@ == without_dots(body.take(i - start)),
            dot_count <= i - start,
            places <= i - start,
        decreases n - i,
    {
        let c = chars[i];
        assert(body.take(i - start + 1).drop_last() == body.take(i - start));
        assert(body.take(i - start + 1).last() == c);
        if dot_count > 0 {
            places += 1;
        }
        if c == '.' {
            dot_count += 1;
        } else {
            text_no_dot.push(c);
        }
        i += 1;
    }
    assert(body.take(n - start) == body);
    (dot_count, places, text_no_dot)
}

/// The power of ten with exponent `places`, where an `i64` holds it.
fn power_of_ten_i64(places: usize) -> (r: Option<i64>)
    ensures
        match r {
            Some(d) => places <= MAX_DECIMAL_PLACES && d == power_of_ten(places as nat),
            None => places > MAX_DECIMAL_PLACES,
        },
{
    let mut denom: i64 = 1;
    let mut k: usize = 0;
    while k < places
        invariant
            k <= places,
            k <= MAX_DECIMAL_PLACES,
            denom == power_of_ten(k as nat),
        decreases places - k,
    {
        proof {
            lemma_power_of_ten_limits();
            if k < MAX_DECIMAL_PLACES {
                lemma_power_of_ten_grows((k + 1) as nat, 18);
            } else {
                lemma_power_of_ten_grows(19, (k + 1) as nat);
            }
        }
        denom = match denom.checked_mul(10) {
            Some(d) => d,
            None => {
                return None;
            },
        };
        k += 1;
    }
    Some(denom)
}

/// Reads a decimal number, such as `5`, `-1.28`, `.5` or `12.`, into the exact
/// fraction in lowest terms. But for one leading sign and one `.`, the text
/// has to be digits.
pub fn parse_decimal(text: &str) -> (r: Result<Rational, ParseDecimalError>)
    ensures
        match r {
            Ok(v) => decimal_of(text@) == Ok::<Fraction, ParseDecimalError>(v@),
            Err(e) => decimal_of(text@) == Err::<Fraction, ParseDecimalError>(e),
        },
{
    let chars = to_chars(text);
    let negate = chars.len() > 0 && chars[0] == '-';
    let start: usize = if chars.len() > 0 && (chars[0] == '-' || chars[0] == '+') {
        1
    } else {
        0
    };
    assert(chars@.skip(0) == chars@);

    let (dot_count, places, text_no_dot) = take_out_dots(&chars, start);
    if dot_count > 1 {
        return Err(ParseDecimalError::TooManyDots(dot_count));
    }
    // what is left is the mantissa

    let magnitude: u64 = match parse_natural(&text_no_dot, 0x7fff_ffff_ffff_ffff) {
        Ok(m) => m,
        Err(e) => {
            return Err(ParseDecimalError::MantissaParsing(e));
        },
    };
    let mantissa: i64 = if negate {
        -(magnitude as i64)
    } else {
        magnitude as i64
    };
    let denom: i64 = match power_of_ten_i64(places) {
        Some(d) => d,
        None => {
            return Err(ParseDecimalError::DenominatorTooLarge);
        },
    };
    proof {
        lemma_power_of_ten_grows(0, places as nat);
    }
    Ok(Rational::over_positive(mantissa, denom))
}

} // verus!
