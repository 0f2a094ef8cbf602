//! Whole numbers in decimal notation: what a run of digits stands for, how an
//! `i64` is read from text and how it is written back.

use vstd::prelude::*;

verus! {

/// Why a text is not an integer of 64 bits.
#[derive(Clone, Copy, Debug, PartialEq, Eq, Structural)]
pub enum IntegerError {
    /// The text has no character at all.
    Empty,
    /// The text has a character that is no digit where one is due, or a sign
    /// and nothing after it.
    InvalidDigit,
    /// The text is a number too large for the type.
    TooLarge,
    /// The text is a number too small for the type.
    TooSmall,
}

pub open spec fn is_digit(c: char) -> bool {
    '0' <= c <= '9'
}

/// The value of one decimal digit.
pub open spec fn digit_value(c: char) -> int {
    c as int - '0' as int
}

/// The character for a value from 0 to 9.
pub open spec fn digit_char(v: int) -> char {
    (v + '0' as int) as char
}

pub open spec fn all_digits(s: Seq<char>) -> bool {
    forall|i: int| 0 <= i < s.len() ==> is_digit(#[trigger] s[i])
}

/// The number that a run of decimal digits writes, the last digit counting
/// least. The empty run writes 0.
pub open spec fn digits_value(s: Seq<char>) -> int
    decreases s.len(),
{
    if s.len() == 0 {
        0
    } else {
        10 * digits_value(s.drop_last()) + digit_value(s.last())
    }
}

/// The integer that a text writes: an optional `+` or `-`, then one digit or
/// more. No bound on its size.
pub open spec fn integer_of(s: Seq<char>) -> Result<int, IntegerError> {
    if s.len() == 0 {
        Err(IntegerError::Empty)
    } else {
        let signed = s[0] == '-' || s[0] == '+';
        let body = if signed {
            s.skip(1)
        } else {
            s
        };
        if body.len() == 0 || !all_digits(body) {
            Err(IntegerError::InvalidDigit)
        } else if s[0] == '-' {
            Ok(-digits_value(body))
        } else {
            Ok(digits_value(body))
        }
    }
}

/// The `i64` that a text writes.
pub open spec fn i64_of(s: Seq<char>) -> Result<i64, IntegerError> {
    match integer_of(s) {
        Ok(v) => if v > i64::MAX {
            Err(IntegerError::TooLarge)
        } else if v < i64::MIN {
            Err(IntegerError::TooSmall)
        } else {
            Ok(v as i64)
        },
        Err(e) => Err(e),
    }
}

/// The decimal digits of a natural number, without leading zeros; `0` for 0.
pub open spec fn natural_text(n: nat) -> Seq<char>
    decreases n,
{
    if n < 10 {
        seq![digit_char(n as int)]
    } else {
        natural_text(n / 10).push(digit_char((n % 10) as int))
    }
}

/// The decimal text of an integer: `-` before the digits of a negative one.
pub open spec fn integer_text(n: int) -> Seq<char> {
    if n < 0 {
        seq!['-'] + natural_text((-n) as nat)
    } else {
        natural_text(n as nat)
    }
}

/// Appending one digit to a run multiplies by ten and adds the digit.
pub proof fn lemma_digits_value_step(s: Seq<char>, k: int)
    requires
        0 <= k < s.len(),
    ensures
        digits_value(s.take(k + 1)) == 10 * digits_value(s.take(k)) + digit_value(s[k]),
{
    assert(s.take(k + 1).drop_last() == s.take(k));
}

/// Reads the run of digits that `chars` holds from `start` on, as far as it
/// writes a number up to `limit`.
fn read_digits(chars: &Vec<char>, start: usize, limit: u64) -> (r: Result<u64, IntegerError>)
    requires
        start < chars.len(),
    ensures
        match r {
            Ok(value) => all_digits(chars@.skip(start as int)) && value == digits_value(
                chars@.skip(start as int),
            ) && value <= limit,
            Err(e) => if all_digits(chars@.skip(start as int)) {
                e == IntegerError::TooLarge && digits_value(chars@.skip(start as int)) > limit
            } else {
                e == IntegerError::InvalidDigit
            },
        },
{
    let n = chars.len();
    let ghost body = chars@.skip(start as int);
    // The value so far, as long as it is within the limit.
    let mut magnitude: u64 = 0;
    let mut too_large = false;
    let mut i: usize = start;
    assert(body.take(0).len() == 0);
    while i < n
        invariant
            start <= i <= n,
            n == chars.len(),
            body == chars@.skip(start as int),
            all_digits(body.take(i - start)),
            too_large ==> digits_value(body.take(i - start)) > limit,
            !too_large ==> magnitude == digits_value(body.take(i - start)) && magnitude <= limit,
        decreases n - i,
    {
        let c = chars[i];
        if !(c >= '0' && c <= '9') {
            assert(!is_digit(body[i - start]));
            return Err(IntegerError::InvalidDigit);
        }
        let digit: u64 = (c as u32 - '0' as u32) as u64;
        proof {
            lemma_digits_value_step(body, i - start);
            assert(all_digits(body.take(i - start + 1))) by {
                assert forall|j: int| 0 <= j < i - start + 1 implies is_digit(
                    #[trigger] body.take(i - start + 1)[j],
                ) by {
                    if j < i - start {
                        assert(body.take(i - start)[j] == body[j]);
                    }
                }
            }
        }
        if !too_large {
            let next: u128 = magnitude as u128 * 10 + digit as u128;
            if next > limit as u128 {
                too_large = true;
            } else {
                magnitude = next as u64;
            }
        }
        i += 1;
    }
    assert(body.take(n - start) == body);
    if too_large {
        Err(IntegerError::TooLarge)
    } else {
        Ok(magnitude)
    }
}

/// The number that a text of digits writes, up to `limit`: the text has to
/// be digits and nothing else, and one digit at least.
pub open spec fn natural_of(s: Seq<char>, limit: int) -> Result<int, IntegerError> {
    if s.len() == 0 {
        Err(IntegerError::Empty)
    } else if !all_digits(s) {
        Err(IntegerError::InvalidDigit)
    } else if digits_value(s) > limit {
        Err(IntegerError::TooLarge)
    } else {
        Ok(digits_value(s))
    }
}

/// Reads a number from a text of digits only, as far as it is no larger
/// than `limit`.
pub fn parse_natural(chars: &Vec<char>, limit: u64) -> (r: Result<u64, IntegerError>)
    ensures
        match r {
            Ok(value) => natural_of(chars@, limit as int) == Ok::<int, IntegerError>(value as int),
            Err(e) => natural_of(chars@, limit as int) == Err::<int, IntegerError>(e),
        },
{
    if chars.len() == 0 {
        return Err(IntegerError::Empty);
    }
    assert(chars@.skip(0) == chars@);
    read_digits(chars, 0, limit)
}

/// Reads an `i64` from its decimal text: an optional sign, then digits only.
pub fn parse_i64(chars: &Vec<char>) -> (r: Result<i64, IntegerError>)
    ensures
        r == i64_of(chars@),
{
    let n = chars.len();
    if n == 0 {
        return Err(IntegerError::Empty);
    }
    let negative = chars[0] == '-';
    let start: usize = if chars[0] == '-' || chars[0] == '+' {
        1
    } else {
        0
    };
    if start == n {
        return Err(IntegerError::InvalidDigit);
    }
    assert(chars@.skip(0) == chars@);
    let magnitude = match read_digits(chars, start, 0x8000_0000_0000_0000) {
        Ok(m) => m,
        Err(IntegerError::TooLarge) => {
            return Err(
                if negative {
                    IntegerError::TooSmall
                } else {
                    IntegerError::TooLarge
                },
            );
        },
        Err(e) => {
            return Err(e);
        },
    };
    if negative {
        if magnitude == 0x8000_0000_0000_0000 {
            Ok(i64::MIN)
        } else {
            Ok(-(magnitude as i64))
        }
    } else if magnitude > 0x7fff_ffff_ffff_ffff {
        Err(IntegerError::TooLarge)
    } else {
        Ok(magnitude as i64)
    }
}

/// The `usize` that a text writes: `+` may stand before the digits, `-` may
/// not.
pub open spec fn usize_of(s: Seq<char>) -> Result<usize, IntegerError> {
    if s.len() > 0 && s[0] == '-' {
        Err(IntegerError::InvalidDigit)
    } else {
        match integer_of(s) {
            Ok(v) => if v <= usize::MAX {
                Ok(v as usize)
            } else {
                Err(IntegerError::TooLarge)
            },
            Err(e) => Err(e),
        }
    }
}

/// Reads a `usize` from its decimal text.
pub fn parse_usize(chars: &Vec<char>) -> (r: Result<usize, IntegerError>)
    ensures
        r == usize_of(chars@),
{
    let n = chars.len();
    if n == 0 {
        return Err(IntegerError::Empty);
    }
    if chars[0] == '-' {
        return Err(IntegerError::InvalidDigit);
    }
    let start: usize = if chars[0] == '+' {
        1
    } else {
        0
    };
    if start == n {
        return Err(IntegerError::InvalidDigit);
    }
    assert(chars@.skip(0) == chars@);
    let magnitude = read_digits(chars, start, usize::MAX as u64)?;
    Ok(magnitude as usize)
}

/// The digits of a natural number are digits, at least one, and write that
/// number.
pub proof fn lemma_natural_text_reads_back(n: nat)
    ensures
        natural_text(n).len() > 0,
        all_digits(natural_text(n)),
        digits_value(natural_text(n)) == n,
    decreases n,
{
    if n < 10 {
        let s = natural_text(n);
        assert(s.drop_last().len() == 0);
        assert(digits_value(s.drop_last()) == 0);
    } else {
        lemma_natural_text_reads_back(n / 10);
        let head = natural_text(n / 10);
        let s = natural_text(n);
        assert(s.drop_last() == head);
        assert forall|i: int| 0 <= i < s.len() implies is_digit(#[trigger] s[i]) by {
            if i < head.len() {
                assert(s[i] == head[i]);
            }
        }
    }
}

/// Reading the text of an integer gives the integer back.
pub proof fn law_integer_text_reads_back(n: int)
    ensures
        integer_of(integer_text(n)) == Ok::<int, IntegerError>(n),
{
    if n < 0 {
        let digits = natural_text((-n) as nat);
        lemma_natural_text_reads_back((-n) as nat);
        assert(integer_text(n).skip(1) == digits);
    } else {
        let digits = natural_text(n as nat);
        lemma_natural_text_reads_back(n as nat);
        assert(is_digit(digits[0]));
    }
}

/// The text of one digit.
fn digit_str(v: u8) -> (s: &'static str)
    requires
        v < 10,
    ensures
        s@ == seq![digit_char(v as int)],
{
    proof {
        reveal_strlit("0");
        reveal_strlit("1");
        reveal_strlit("2");
        reveal_strlit("3");
        reveal_strlit("4");
        reveal_strlit("5");
        reveal_strlit("6");
        reveal_strlit("7");
        reveal_strlit("8");
        reveal_strlit("9");
    }
    let s = match v {
        0 => "0",
        1 => "1",
        2 => "2",
        3 => "3",
        4 => "4",
        5 => "5",
        6 => "6",
        7 => "7",
        8 => "8",
        _ => "9",
    };
    assert(s@ =~= seq![digit_char(v as int)]);
    s
}

/// Appends the decimal digits of `n` to `out`.
pub fn write_u64(n: u64, out: &mut String)
    ensures
        final(out)@ == old(out)@ + natural_text(n as nat),
{
    let ghost prefix = out@;
    // The digits from the last one upwards, but for the leading one.
    let mut low: Vec<u8> = Vec::new();
    let ghost mut tail: Seq<char> = Seq::empty();
    let mut rest: u64 = n;
    while rest >= 10
        invariant
            natural_text(n as nat) == natural_text(rest as nat) + tail,
            tail.len() == low.len(),
            forall|j: int|
                0 <= j < low.len() ==> low[j] < 10 && tail[low.len() - 1 - j] == digit_char(
                    #[trigger] low[j] as int,
                ),
        decreases rest,
    {
        let digit: u8 = (rest % 10) as u8;
        proof {
            let longer = seq![digit_char(digit as int)] + tail;
            assert(natural_text(rest as nat) == natural_text((rest / 10) as nat).push(
                digit_char(digit as int),
            ));
            assert(natural_text((rest / 10) as nat).push(digit_char(digit as int)) + tail
                == natural_text((rest / 10) as nat) + longer);
            tail = longer;
        }
        low.push(digit);
        rest = rest / 10;
    }
    out.append(digit_str(rest as u8));
    let mut k: usize = low.len();
    while k > 0
        invariant
            k <= low.len(),
            tail.len() == low.len(),
            forall|j: int|
                0 <= j < low.len() ==> low[j] < 10 && tail[low.len() - 1 - j] == digit_char(
                    #[trigger] low[j] as int,
                ),
            out@ == prefix + natural_text(rest as nat) + tail.take(low.len() - k),
        decreases k,
    {
        k -= 1;
        out.append(digit_str(low[k]));
        assert(tail.take(low.len() - k) == tail.take(low.len() - k - 1).push(
            digit_char(low[k as int] as int),
        ));
    }
    assert(tail.take(low.len() as int) == tail);
    assert(out@ == prefix + (natural_text(rest as nat) + tail));
}

/// Appends the decimal text of `n` to `out`.
pub fn write_i64(n: i64, out: &mut String)
    ensures
        final(out)@ == old(out)@ + integer_text(n as int),
{
    if n < 0 {
        proof {
            reveal_strlit("-");
        }
        out.append("-");
        assert(out@ == old(out)@ + seq!['-']);
        write_u64((-(n as i128)) as u64, out);
    } else {
        write_u64(n as u64, out);
    }
}

/// Why a text is not an integer, in words.
pub fn integer_error_text(error: IntegerError) -> (text: &'static str)
    ensures
        text@ == (match error {
            IntegerError::Empty => "cannot parse integer from empty string"@,
            IntegerError::InvalidDigit => "invalid digit found in string"@,
            IntegerError::TooLarge => "number too large to fit in target type"@,
            IntegerError::TooSmall => "number too small to fit in target type"@,
        }),
{
    match error {
        IntegerError::Empty => "cannot parse integer from empty string",
        IntegerError::InvalidDigit => "invalid digit found in string",
        IntegerError::TooLarge => "number too large to fit in target type",
        IntegerError::TooSmall => "number too small to fit in target type",
    }
}

} // verus!
