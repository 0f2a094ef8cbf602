//! The text form in which a fraction is kept and shown: `N` for a whole
//! number, `N/D` otherwise.

use crate::digits::{
    i64_of, integer_text, is_digit, law_integer_text_reads_back, lemma_natural_text_reads_back,
    natural_text, parse_i64, write_i64,
};
use crate::fraction::{lemma_lowest_terms_is_reduced, Fraction};
use crate::rational::{Rational, RationalError};
use crate::text::{copy_range, to_chars};
use vstd::prelude::*;

verus! {

/// The canonical text of a fraction in lowest terms: the numerator alone
/// where the denominator is 1, else numerator, `/` and denominator.
pub open spec fn canonical_text(f: Fraction) -> Seq<char> {
    if f.den == 1 {
        integer_text(f.num)
    } else {
        integer_text(f.num) + seq!['/'] + integer_text(f.den)
    }
}

/// What a text of the form `N` or `N/D` stands for. The text is cut at its
/// first `/`; each part has to be an integer of 64 bits.
pub open spec fn ratio_of(text: Seq<char>) -> Result<Fraction, RationalError> {
    match text.index_of_first('/') {
        None => match i64_of(text) {
            Ok(n) => Ok(Fraction::integer(n as int)),
            Err(_) => Err(RationalError::MalformedNumber),
        },
        Some(cut) => match (i64_of(text.take(cut)), i64_of(text.skip(cut + 1))) {
            (Ok(n), Ok(d)) => if d == 0 {
                Err(RationalError::InvalidFraction)
            } else if !Fraction::reduced(n as int, d as int).fits_i64() {
                Err(RationalError::ArithmeticOverflow)
            } else {
                Ok(Fraction::reduced(n as int, d as int))
            },
            _ => Err(RationalError::MalformedNumber),
        },
    }
}

/// Where `c` first stands in `chars`.
fn find_first(chars: &Vec<char>, c: char) -> (r: Option<usize>)
    ensures
        match r {
            Some(p) => chars@.index_of_first(c) == Some(p as int),
            None => chars@.index_of_first(c) is None,
        },
{
    let mut i: usize = 0;
    while i < chars.len()
        invariant
            i <= chars.len(),
            forall|j: int| 0 <= j < i ==> chars@[j] != c,
        decreases chars.len() - i,
    {
        if chars[i] == c {
            proof {
                chars@.index_of_first_ensures(c);
            }
            return Some(i);
        }
        i += 1;
    }
    proof {
        chars@.index_of_first_ensures(c);
    }
    None
}

impl Rational {
    /// The canonical text: `N` where the denominator is 1, else `N/D`.
    pub fn to_canonical_string(&self) -> (text: String)
        ensures
            text@ == canonical_text(self@),
    {
        let mut text = String::new();
        write_i64(self.numer(), &mut text);
        if self.denom() != 1 {
            proof {
                reveal_strlit("/");
            }
            text.append("/");
            write_i64(self.denom(), &mut text);
        }
        text
    }

    /// Reads a fraction from `N` or `N/D`, and brings it into lowest terms.
    /// `MalformedNumber` where a part is no integer of 64 bits (a second `/`
    /// makes the part after the first such), `InvalidFraction` where `D` is
    /// 0, `ArithmeticOverflow` where the lowest terms do not fit.
    pub fn parse_ratio_string(text: &str) -> (r: Result<Rational, RationalError>)
        ensures
            match r {
                Ok(v) => ratio_of(text@) == Ok::<Fraction, RationalError>(v@),
                Err(e) => ratio_of(text@) == Err::<Fraction, RationalError>(e),
            },
    {
        let chars = to_chars(text);
        match find_first(&chars, '/') {
            None => match parse_i64(&chars) {
                Ok(n) => Ok(Rational::from_integer(n)),
                Err(_) => Err(RationalError::MalformedNumber),
            },
            Some(cut) => {
                proof {
                    chars@.index_of_first_ensures('/');
                }
                let numer_text = copy_range(&chars, 0, cut);
                let denom_text = copy_range(&chars, cut + 1, chars.len());
                match parse_i64(&numer_text) {
                    Err(_) => Err(RationalError::MalformedNumber),
                    Ok(n) => match parse_i64(&denom_text) {
                        Err(_) => Err(RationalError::MalformedNumber),
                        Ok(d) => Rational::create(n, d),
                    },
                }
            },
        }
    }
}

/// Digits and a sign hold no `/`.
proof fn lemma_integer_text_has_no_slash(n: int)
    ensures
        !integer_text(n).contains('/'),
{
    let t = integer_text(n);
    let m = if n < 0 {
        (-n) as nat
    } else {
        n as nat
    };
    lemma_natural_text_reads_back(m);
    assert forall|i: int| 0 <= i < t.len() implies t[i] != '/' by {
        if n < 0 && i > 0 {
            assert(t[i] == natural_text(m)[i - 1]);
            assert(is_digit(natural_text(m)[i - 1]));
        } else if n >= 0 {
            assert(is_digit(natural_text(m)[i]));
        }
    }
}

/// The canonical text of a fraction reads back as that fraction: what is
/// written to the store is what is loaded from it.
pub proof fn law_canonical_text_reads_back(f: Fraction)
    requires
        f.in_lowest_terms(),
        f.fits_i64(),
    ensures
        ratio_of(canonical_text(f)) == Ok::<Fraction, RationalError>(f),
{
    let text = canonical_text(f);
    let numer = integer_text(f.num);
    law_integer_text_reads_back(f.num);
    lemma_integer_text_has_no_slash(f.num);
    text.index_of_first_ensures('/');
    if f.den == 1 {
    } else {
        let denom = integer_text(f.den);
        law_integer_text_reads_back(f.den);
        lemma_integer_text_has_no_slash(f.den);
        let cut = numer.len() as int;
        assert(text[cut] == '/');
        assert forall|j: int| 0 <= j < cut implies text[j] != '/' by {
            assert(text[j] == numer[j]);
        }
        assert(text.index_of_first('/') == Some(cut));
        assert(text.take(cut) == numer);
        assert(text.skip(cut + 1) == denom);
        lemma_lowest_terms_is_reduced(f);
    }
}

} // verus!
