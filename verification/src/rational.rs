//! The executable rational number: two `i64` parts kept in lowest terms.
//! Reduction and the four operations are `num_rational`'s; order, sign,
//! negation and rounding are decided here on the two parts.

use crate::fraction::{
    gcd, law_minus_self_is_zero, law_plus_commutes, law_times_commutes,
    lemma_divisible_is_multiple, lemma_exact_quotient, lemma_gcd_divides, lemma_gcd_is_symmetric,
    lemma_gcd_of_evens_is_even, lemma_gcd_with_one, lemma_lowest_terms_is_zero,
    lemma_odd_divisor_of_power_of_two, lemma_reduced_in_lowest_terms, lemma_reduced_is_no_larger,
    lemma_reduced_parts, lemma_reduced_zero, lemma_zero_is_neutral, lemma_zero_times, Fraction,
};
use vstd::arithmetic::div_mod::{lemma_div_by_self, lemma_div_multiples_vanish, lemma_mod_self_0};
use num_rational::Ratio;
use num_traits::{CheckedAdd, CheckedDiv, CheckedMul, CheckedSub};
use vstd::arithmetic::power2::{lemma2_to64_rest, pow2};
use vstd::math::abs;
use vstd::prelude::*;

verus! {

/// Why an operation on rationals gave no value.
#[derive(Clone, Copy, Debug, PartialEq, Eq, Structural)]
pub enum RationalError {
    /// A fraction was asked for with denominator 0.
    InvalidFraction,
    /// The divisor was the zero fraction.
    DivisionByZero,
    /// The exact result, or a step towards it, does not fit in 64 bits.
    ArithmeticOverflow,
    /// The text is not of the form `N` or `N/D`.
    MalformedNumber,
}

/// An exact fraction of two `i64`, always in lowest terms with a positive
/// denominator.
#[derive(Clone, Copy, Debug, PartialEq, Eq, Hash, Structural)]
pub struct Rational {
    numer: i64,
    denom: i64,
}

impl View for Rational {
    type V = Fraction;

    closed spec fn view(&self) -> Fraction {
        Fraction { num: self.numer as int, den: self.denom as int }
    }
}

/// Whether an integer is an `i64`.
pub open spec fn fits(x: int) -> bool {
    i64::MIN <= x <= i64::MAX
}

/// The common denominator that `num_rational` adds and subtracts over: the
/// first denominator, without what it shares with the second, times the
/// second.
pub open spec fn common_denominator(a: Fraction, b: Fraction) -> int {
    a.den / (gcd(abs(a.den), abs(b.den)) as int) * b.den
}

/// Whether `num_rational`'s checked addition gives up on two fractions in
/// lowest terms. It takes four steps in 64 bits and gives up if one of them
/// overflows: the common denominator, each numerator brought to it, and
/// their sum.
pub open spec fn sum_overflows(a: Fraction, b: Fraction) -> bool {
    let l = common_denominator(a, b);
    let x = l / a.den * a.num;
    let y = l / b.den * b.num;
    !(fits(l) && fits(x) && fits(y) && fits(x + y))
}

/// Whether `num_rational`'s checked subtraction gives up on two fractions in
/// lowest terms: as for the sum, with the difference as the last step.
pub open spec fn difference_overflows(a: Fraction, b: Fraction) -> bool {
    let l = common_denominator(a, b);
    let x = l / a.den * a.num;
    let y = l / b.den * b.num;
    !(fits(l) && fits(x) && fits(y) && fits(x - y))
}

/// Whether `num_rational`'s checked multiplication gives up on two
/// fractions in lowest terms. It first takes out what each numerator shares
/// with the other's denominator, and gives up if the product of the
/// numerators or that of the denominators overflows 64 bits.
pub open spec fn product_overflows(a: Fraction, b: Fraction) -> bool {
    let g = gcd(abs(a.num), abs(b.den)) as int;
    let h = gcd(abs(a.den), abs(b.num)) as int;
    !(fits((a.num / g) * (b.num / h)) && fits((a.den / h) * (b.den / g)))
}

/// The numerator and the denominator that `num_rational` divides down to,
/// before it brings them into lowest terms: with equal denominators the two
/// numerators, with equal numerators the two denominators the other way
/// round, else the cross products, after what the numerators share and what
/// the denominators share was taken out.
pub open spec fn quotient_parts(a: Fraction, b: Fraction) -> (int, int) {
    if a.den == b.den {
        (a.num, b.num)
    } else if a.num == b.num {
        (b.den, a.den)
    } else {
        let g = gcd(abs(a.num), abs(b.num)) as int;
        let h = gcd(abs(a.den), abs(b.den)) as int;
        ((a.num / g) * (b.den / h), (a.den / h) * (b.num / g))
    }
}

/// Whether `num_rational`'s checked division gives up on two fractions in
/// lowest terms, neither of them zero. It gives up if one of the two parts
/// it divides down to overflows 64 bits, or if the sign has to move from the
/// denominator to the numerator and one of the two, in lowest terms, is
/// -2^63.
pub open spec fn quotient_overflows(a: Fraction, b: Fraction) -> bool {
    let (n, m) = quotient_parts(a, b);
    let k = gcd(abs(n), abs(m)) as int;
    !(fits(n) && fits(m) && (n == m || m > 0 || (n / k != i64::MIN && m / k != i64::MIN)))
}

/// The outcome of adding two rationals: the sum, unless the addition
/// overflowed.
pub open spec fn checked_plus(a: Fraction, b: Fraction) -> Result<Fraction, RationalError> {
    if sum_overflows(a, b) {
        Err(RationalError::ArithmeticOverflow)
    } else {
        Ok(a.plus(b))
    }
}

/// The outcome of subtracting `b` from `a`: the difference, unless the
/// subtraction overflowed.
pub open spec fn checked_minus(a: Fraction, b: Fraction) -> Result<Fraction, RationalError> {
    if difference_overflows(a, b) {
        Err(RationalError::ArithmeticOverflow)
    } else {
        Ok(a.minus(b))
    }
}

/// The outcome of multiplying two rationals: the product, unless the
/// multiplication overflowed.
pub open spec fn checked_times(a: Fraction, b: Fraction) -> Result<Fraction, RationalError> {
    if product_overflows(a, b) {
        Err(RationalError::ArithmeticOverflow)
    } else {
        Ok(a.times(b))
    }
}

/// The outcome of dividing `a` by `b`: no quotient by zero; zero where `a`
/// is zero; else the quotient, unless the division overflowed.
pub open spec fn checked_over(a: Fraction, b: Fraction) -> Result<Fraction, RationalError> {
    if b.is_zero() {
        Err(RationalError::DivisionByZero)
    } else if a.is_zero() {
        Ok(Fraction::zero())
    } else if quotient_overflows(a, b) {
        Err(RationalError::ArithmeticOverflow)
    } else {
        Ok(a.over(b))
    }
}

/// The outcome of changing the sign: the numerator -2^63 has no opposite.
pub open spec fn checked_negated(a: Fraction) -> Result<Fraction, RationalError> {
    if a.num == i64::MIN {
        Err(RationalError::ArithmeticOverflow)
    } else {
        Ok(a.negated())
    }
}

/// A result as contracts speak of it: the value by its view.
pub open spec fn outcome(r: Result<Rational, RationalError>) -> Result<Fraction, RationalError> {
    match r {
        Ok(v) => Ok(v@),
        Err(e) => Err(e),
    }
}

/// Calls `num_rational::Ratio::<i64>::new`, which brings `numer / denom` into
/// lowest terms with a positive denominator. The call panics on a zero
/// denominator, and it overflows where a part of the lowest-terms form is
/// 2^63; both are left out.
#[verifier::external_body]
fn ratio_new(numer: i64, denom: i64) -> (r: Rational)
    requires
        denom != 0,
        Fraction::reduced(numer as int, denom as int).fits_i64(),
    ensures
        r@ == Fraction::reduced(numer as int, denom as int),
{
    let q = Ratio::<i64>::new(numer, denom);
    Rational { numer: *q.numer(), denom: *q.denom() }
}

/// Calls `checked_add` of `num_rational::Ratio<i64>`: `None` where one of
/// its four steps overflowed, else the exact sum in lowest terms.
#[verifier::external_body]
fn ratio_checked_add(a: Rational, b: Rational) -> (r: Option<Rational>)
    ensures
        r is None <==> sum_overflows(a@, b@),
        r matches Some(v) ==> v@ == a@.plus(b@),
{
    let q = Ratio::new_raw(a.numer, a.denom).checked_add(&Ratio::new_raw(b.numer, b.denom))?;
    Some(Rational { numer: *q.numer(), denom: *q.denom() })
}

/// Calls `checked_sub` of `num_rational::Ratio<i64>`: `None` where one of
/// its four steps overflowed, else the exact difference in lowest terms.
#[verifier::external_body]
fn ratio_checked_sub(a: Rational, b: Rational) -> (r: Option<Rational>)
    ensures
        r is None <==> difference_overflows(a@, b@),
        r matches Some(v) ==> v@ == a@.minus(b@),
{
    let q = Ratio::new_raw(a.numer, a.denom).checked_sub(&Ratio::new_raw(b.numer, b.denom))?;
    Some(Rational { numer: *q.numer(), denom: *q.denom() })
}

/// Calls `checked_mul` of `num_rational::Ratio<i64>`: `None` where one of
/// its two products overflowed, else the exact product in lowest terms.
#[verifier::external_body]
fn ratio_checked_mul(a: Rational, b: Rational) -> (r: Option<Rational>)
    ensures
        r is None <==> product_overflows(a@, b@),
        r matches Some(v) ==> v@ == a@.times(b@),
{
    let q = Ratio::new_raw(a.numer, a.denom).checked_mul(&Ratio::new_raw(b.numer, b.denom))?;
    Some(Rational { numer: *q.numer(), denom: *q.denom() })
}

/// Calls `checked_div` of `num_rational::Ratio<i64>` on a dividend and a
/// divisor that are not zero: `None` where one of its products or the change
/// of sign overflowed, else the exact quotient in lowest terms. (On a zero
/// divisor the call gives `None` as well, and on a zero dividend it can
/// overflow inside its gcd: the caller settles both.)
#[verifier::external_body]
fn ratio_checked_div(a: Rational, b: Rational) -> (r: Option<Rational>)
    requires
        !a@.is_zero(),
        !b@.is_zero(),
    ensures
        r is None <==> quotient_overflows(a@, b@),
        r matches Some(v) ==> v@ == a@.over(b@),
{
    let q = Ratio::new_raw(a.numer, a.denom).checked_div(&Ratio::new_raw(b.numer, b.denom))?;
    Some(Rational { numer: *q.numer(), denom: *q.denom() })
}

/// `num_rational` gives up on `a + b` exactly where it gives up on `b + a`,
/// and likewise for the product: its steps treat the two alike.
pub proof fn lemma_overflow_is_symmetric(a: Fraction, b: Fraction)
    requires
        a.den > 0,
        b.den > 0,
    ensures
        sum_overflows(a, b) == sum_overflows(b, a),
        product_overflows(a, b) == product_overflows(b, a),
{
    let g = gcd(abs(a.den), abs(b.den));
    lemma_gcd_is_symmetric(abs(a.den), abs(b.den));
    lemma_gcd_divides(abs(a.den), abs(b.den));
    lemma_divisible_is_multiple(g, abs(a.den));
    lemma_divisible_is_multiple(g, abs(b.den));
    let p = a.den / (g as int);
    let q = b.den / (g as int);
    assert(p * b.den == q * a.den) by (nonlinear_arith)
        requires
            a.den == g * p,
            b.den == g * q,
    ;
    assert(common_denominator(a, b) == common_denominator(b, a));
    let l = common_denominator(a, b);
    assert((l / a.den * a.num) + (l / b.den * b.num) == (l / b.den * b.num) + (l / a.den * a.num));

    lemma_gcd_is_symmetric(abs(a.num), abs(b.den));
    lemma_gcd_is_symmetric(abs(a.den), abs(b.num));
    let u = gcd(abs(a.num), abs(b.den)) as int;
    let v = gcd(abs(a.den), abs(b.num)) as int;
    assert((a.num / u) * (b.num / v) == (b.num / v) * (a.num / u)) by (nonlinear_arith);
    assert((a.den / v) * (b.den / u) == (b.den / u) * (a.den / v)) by (nonlinear_arith);
}

/// `num_rational` always gives `a + 0`, `a - a` and `0 * b`: every step stays
/// within the parts of `a` or `b`.
pub proof fn lemma_plain_cases_do_not_overflow(a: Fraction, b: Fraction)
    requires
        a.den > 0,
        b.den > 0,
        a.fits_i64(),
        b.fits_i64(),
    ensures
        b == Fraction::zero() ==> !sum_overflows(a, b),
        !difference_overflows(a, a),
        a == Fraction::zero() ==> !product_overflows(a, b),
{
    lemma_div_by_self(a.den);
    lemma_div_by_self(b.den);
    if b == Fraction::zero() {
        lemma_gcd_with_one(abs(a.den));
        assert(a.den / 1 * 1 == a.den);
        assert(1 * a.num == a.num && a.den / 1 * 0 == 0) by (nonlinear_arith);
    }
    assert(gcd(abs(a.den), abs(a.den)) == abs(a.den)) by {
        reveal_with_fuel(gcd, 2);
        lemma_mod_self_0(a.den);
    }
    assert(a.den / a.den * a.den == a.den && a.den / a.den * a.num == a.num) by (nonlinear_arith)
        requires
            a.den / a.den == 1,
    ;
    if a == Fraction::zero() {
        lemma_gcd_with_one(abs(b.num));
        assert(gcd(0, abs(b.den)) == abs(b.den));
        assert(0int / b.den == 0) by (nonlinear_arith)
            requires
                b.den > 0,
        ;
        assert((0int / b.den) * (b.num / 1) == 0 && (1int / 1) * (b.den / b.den) == 1)
            by (nonlinear_arith)
            requires
                0int / b.den == 0,
                b.den / b.den == 1,
        ;
    }
}

/// Whether both parts of a fraction are below 2^31 in magnitude, and the
/// denominator above zero.
pub open spec fn is_small(f: Fraction) -> bool {
    -0x8000_0000 < f.num < 0x8000_0000 && 0 < f.den < 0x8000_0000
}

/// The product of two integers below 2^31 in magnitude is below 2^62 in
/// magnitude.
proof fn lemma_small_product(x: int, y: int)
    requires
        -0x8000_0000 < x < 0x8000_0000,
        -0x8000_0000 < y < 0x8000_0000,
    ensures
        -0x4000_0000_0000_0000 < x * y < 0x4000_0000_0000_0000,
{
    assert(-0x4000_0000_0000_0000 < x * y < 0x4000_0000_0000_0000) by (nonlinear_arith)
        requires
            -0x8000_0000 < x < 0x8000_0000,
            -0x8000_0000 < y < 0x8000_0000,
    ;
}

/// On fractions whose parts are all below 2^31 in magnitude, `num_rational`
/// gives up on none of the four operations.
pub proof fn law_small_fractions_do_not_overflow(a: Fraction, b: Fraction)
    requires
        is_small(a),
        is_small(b),
    ensures
        !sum_overflows(a, b),
        !difference_overflows(a, b),
        !product_overflows(a, b),
        !a.is_zero() && !b.is_zero() ==> !quotient_overflows(a, b),
{
    // sum and difference
    let g = gcd(abs(a.den), abs(b.den));
    lemma_gcd_divides(abs(a.den), abs(b.den));
    lemma_exact_quotient(a.den, g);
    lemma_exact_quotient(b.den, g);
    let p = a.den / (g as int);
    let q = b.den / (g as int);
    let l = common_denominator(a, b);
    assert(l == p * b.den);
    assert(l == a.den * q && l == b.den * p) by (nonlinear_arith)
        requires
            l == p * b.den,
            a.den == g * p,
            b.den == g * q,
    ;
    lemma_div_multiples_vanish(q, a.den);
    lemma_div_multiples_vanish(p, b.den);
    assert(l / a.den == q && l / b.den == p);
    lemma_small_product(p, b.den);
    lemma_small_product(q, a.num);
    lemma_small_product(p, b.num);

    // product
    let u = gcd(abs(a.num), abs(b.den));
    let v = gcd(abs(a.den), abs(b.num));
    lemma_gcd_divides(abs(a.num), abs(b.den));
    lemma_gcd_divides(abs(a.den), abs(b.num));
    lemma_exact_quotient(a.num, u);
    lemma_exact_quotient(b.den, u);
    lemma_exact_quotient(a.den, v);
    lemma_exact_quotient(b.num, v);
    lemma_small_product(a.num / (u as int), b.num / (v as int));
    lemma_small_product(a.den / (v as int), b.den / (u as int));

    // quotient
    if !a.is_zero() && !b.is_zero() {
        let (n, m) = quotient_parts(a, b);
        if a.den != b.den && a.num != b.num {
            let s = gcd(abs(a.num), abs(b.num));
            let t = gcd(abs(a.den), abs(b.den));
            lemma_gcd_divides(abs(a.num), abs(b.num));
            lemma_exact_quotient(a.num, s);
            lemma_exact_quotient(b.num, s);
            lemma_exact_quotient(a.den, t);
            lemma_exact_quotient(b.den, t);
            lemma_small_product(a.num / (s as int), b.den / (t as int));
            lemma_small_product(a.den / (t as int), b.num / (s as int));
            assert(m != 0) by (nonlinear_arith)
                requires
                    m == (a.den / (t as int)) * (b.num / (s as int)),
                    a.den / (t as int) != 0,
                    b.num / (s as int) != 0,
            ;
        }
        assert(m != 0);
        let k = gcd(abs(n), abs(m));
        lemma_gcd_divides(abs(n), abs(m));
        lemma_exact_quotient(n, k);
        lemma_exact_quotient(m, k);
    }
}

/// On whole numbers `num_rational` gives up exactly where the whole sum,
/// difference or product is no `i64`.
pub proof fn law_whole_numbers_overflow_as_integers(a: int, b: int)
    requires
        fits(a),
        fits(b),
    ensures
        sum_overflows(Fraction::integer(a), Fraction::integer(b)) == !fits(a + b),
        difference_overflows(Fraction::integer(a), Fraction::integer(b)) == !fits(a - b),
        product_overflows(Fraction::integer(a), Fraction::integer(b)) == !fits(a * b),
{
    lemma_gcd_with_one(1);
    lemma_gcd_with_one(abs(a));
    lemma_gcd_with_one(abs(b));
    assert(1int / 1 * 1 == 1);
    assert(1int / 1 * a == a && 1int / 1 * b == b) by (nonlinear_arith);
    assert((a / 1) * (b / 1) == a * b && (1int / 1) * (1int / 1) == 1) by (nonlinear_arith);
}

/// Two rationals that stand for the same fraction are the same value.
pub proof fn law_same_fraction_same_rational(a: Rational, b: Rational)
    requires
        a@ == b@,
    ensures
        a == b,
{
}

impl Rational {
    /// What holds of every `Rational`: its parts are in lowest terms.
    #[verifier::type_invariant]
    pub open spec fn well_formed(self) -> bool {
        self@.in_lowest_terms() && self@.fits_i64()
    }

    /// The fraction `numer / denom` in lowest terms. Fails with
    /// `InvalidFraction` on a zero denominator, and with `ArithmeticOverflow`
    /// where the lowest-terms form has a part of 2^63: that takes a part of
    /// -2^63 and a denominator below zero.
    pub fn create(numer: i64, denom: i64) -> (r: Result<Rational, RationalError>)
        ensures
            match r {
                Ok(v) => denom != 0 && v@ == Fraction::reduced(numer as int, denom as int)
                    && v@.in_lowest_terms() && v@.fits_i64(),
                Err(e) => if denom == 0 {
                    e == RationalError::InvalidFraction
                } else {
                    e == RationalError::ArithmeticOverflow && !Fraction::reduced(
                        numer as int,
                        denom as int,
                    ).fits_i64()
                },
            },
            denom > 0 || (denom < 0 && numer != i64::MIN && denom != i64::MIN) ==> r is Ok,
    {
        if denom == 0 {
            return Err(RationalError::InvalidFraction);
        }
        proof {
            lemma_reduced_is_no_larger(numer as int, denom as int);
            lemma_reduced_parts(numer as int, denom as int);
            lemma_reduced_in_lowest_terms(numer as int, denom as int);
        }
        if denom < 0 && (numer == i64::MIN || denom == i64::MIN) {
            // One part is -2^63 and the sign has to change: the form fits
            // only if a factor of two can be taken out of both.
            if numer % 2 != 0 || denom % 2 != 0 {
                proof {
                    let a = abs(numer as int);
                    let b = abs(denom as int);
                    let g = gcd(a, b);
                    lemma_gcd_divides(a, b);
                    lemma_divisible_is_multiple(g, a);
                    lemma_divisible_is_multiple(g, b);
                    lemma2_to64_rest();
                    let odd = if numer % 2 != 0 { a } else { b };
                    let big = if numer % 2 != 0 { b } else { a };
                    assert(big == pow2(63));
                    assert(odd % 2 == 1);
                    if g % 2 == 0 {
                        let h = g / 2;
                        let k = odd / g;
                        assert(odd == 2 * (h * k)) by (nonlinear_arith)
                            requires
                                odd == g * k,
                                g == 2 * h,
                        ;
                    }
                    lemma_odd_divisor_of_power_of_two(g, big / g, 63);
                }
                return Err(RationalError::ArithmeticOverflow);
            }
            proof {
                let a = abs(numer as int);
                let b = abs(denom as int);
                lemma_gcd_of_evens_is_even(a, b);
                let g = gcd(a, b);
                let r = Fraction::reduced(numer as int, denom as int);
                assert(abs(r.num) * 2 <= a && r.den * 2 <= b) by (nonlinear_arith)
                    requires
                        r.den * g == b,
                        abs(r.num) * g == a,
                        g >= 2,
                        r.den > 0,
                        abs(r.num) >= 0,
                ;
            }
        }
        Ok(ratio_new(numer, denom))
    }

    /// The fraction `numer / denom` in lowest terms, for a denominator above
    /// zero: nothing can go wrong then.
    pub(crate) fn over_positive(numer: i64, denom: i64) -> (r: Rational)
        requires
            denom > 0,
        ensures
            r@ == Fraction::reduced(numer as int, denom as int),
    {
        proof {
            lemma_reduced_is_no_larger(numer as int, denom as int);
            lemma_reduced_parts(numer as int, denom as int);
        }
        ratio_new(numer, denom)
    }

    /// The fraction 0/1.
    pub fn zero() -> (r: Rational)
        ensures
            r@ == Fraction::zero(),
    {
        proof {
            lemma_gcd_with_one(0);
        }
        Rational { numer: 0, denom: 1 }
    }

    /// The fraction `n`/1.
    pub fn from_integer(n: i64) -> (r: Rational)
        ensures
            r@ == Fraction::integer(n as int),
    {
        proof {
            lemma_gcd_with_one(abs(n as int));
        }
        Rational { numer: n, denom: 1 }
    }

    /// The numerator; it carries the sign.
    pub fn numer(&self) -> (n: i64)
        ensures
            n == self@.num,
    {
        self.numer
    }

    /// The denominator; it is positive.
    pub fn denom(&self) -> (d: i64)
        ensures
            d == self@.den,
            d > 0,
    {
        proof {
            use_type_invariant(self);
        }
        self.denom
    }

    pub fn is_zero(&self) -> (b: bool)
        ensures
            b == self@.is_zero(),
    {
        self.numer == 0
    }

    pub fn is_positive(&self) -> (b: bool)
        ensures
            b == self@.is_positive(),
    {
        self.numer > 0
    }

    pub fn is_negative(&self) -> (b: bool)
        ensures
            b == self@.is_negative(),
    {
        self.numer < 0
    }

    /// `self < other`, decided exactly by cross-multiplication in 128 bits.
    pub fn lt(&self, other: &Rational) -> (b: bool)
        ensures
            b == self@.less_than(other@),
    {
        let a: i64 = self.numer;
        let b: i64 = self.denom;
        let c: i64 = other.numer;
        let d: i64 = other.denom;
        assert(-0x4000_0000_0000_0000_0000_0000_0000_0000 <= a * d
            <= 0x4000_0000_0000_0000_0000_0000_0000_0000) by (nonlinear_arith)
            requires
                -0x8000_0000_0000_0000 <= a <= 0x7fff_ffff_ffff_ffff,
                -0x8000_0000_0000_0000 <= d <= 0x7fff_ffff_ffff_ffff,
        ;
        assert(-0x4000_0000_0000_0000_0000_0000_0000_0000 <= c * b
            <= 0x4000_0000_0000_0000_0000_0000_0000_0000) by (nonlinear_arith)
            requires
                -0x8000_0000_0000_0000 <= c <= 0x7fff_ffff_ffff_ffff,
                -0x8000_0000_0000_0000 <= b <= 0x7fff_ffff_ffff_ffff,
        ;
        (a as i128) * (d as i128) < (c as i128) * (b as i128)
    }

    /// `self <= other`.
    pub fn le(&self, other: &Rational) -> (b: bool)
        ensures
            b == !other@.less_than(self@),
    {
        !other.lt(self)
    }

    /// `self > other`.
    pub fn gt(&self, other: &Rational) -> (b: bool)
        ensures
            b == other@.less_than(self@),
    {
        other.lt(self)
    }

    /// `self >= other`.
    pub fn ge(&self, other: &Rational) -> (b: bool)
        ensures
            b == !self@.less_than(other@),
    {
        !self.lt(other)
    }

    /// The sum in lowest terms, or `ArithmeticOverflow`. The order of the two
    /// makes no difference, to the sum or to the failure.
    pub fn add(&self, other: &Rational) -> (r: Result<Rational, RationalError>)
        ensures
            outcome(r) == checked_plus(self@, other@),
            checked_plus(self@, other@) == checked_plus(other@, self@),
            other@.is_zero() ==> outcome(r) == Ok::<Fraction, RationalError>(self@),
    {
        proof {
            use_type_invariant(self);
            use_type_invariant(other);
            law_plus_commutes(self@, other@);
            lemma_overflow_is_symmetric(self@, other@);
            if other@.is_zero() {
                lemma_zero_is_neutral(self@, other@);
                lemma_plain_cases_do_not_overflow(self@, other@);
            }
        }
        match ratio_checked_add(*self, *other) {
            Some(v) => Ok(v),
            None => Err(RationalError::ArithmeticOverflow),
        }
    }

    /// The difference in lowest terms, or `ArithmeticOverflow`. A fraction
    /// minus itself is always given, and is zero.
    pub fn subtract(&self, other: &Rational) -> (r: Result<Rational, RationalError>)
        ensures
            outcome(r) == checked_minus(self@, other@),
            self@ == other@ ==> outcome(r) == Ok::<Fraction, RationalError>(Fraction::zero()),
    {
        proof {
            use_type_invariant(self);
            law_minus_self_is_zero(self@);
            lemma_plain_cases_do_not_overflow(self@, self@);
        }
        match ratio_checked_sub(*self, *other) {
            Some(v) => Ok(v),
            None => Err(RationalError::ArithmeticOverflow),
        }
    }

    /// The product in lowest terms, or `ArithmeticOverflow`. The order of the
    /// two makes no difference, to the product or to the failure.
    pub fn multiply(&self, other: &Rational) -> (r: Result<Rational, RationalError>)
        ensures
            outcome(r) == checked_times(self@, other@),
            checked_times(self@, other@) == checked_times(other@, self@),
            self@.is_zero() ==> outcome(r) == Ok::<Fraction, RationalError>(Fraction::zero()),
    {
        proof {
            use_type_invariant(self);
            use_type_invariant(other);
            law_times_commutes(self@, other@);
            lemma_overflow_is_symmetric(self@, other@);
            if self@.is_zero() {
                lemma_zero_times(self@, other@);
                lemma_lowest_terms_is_zero(self@);
                lemma_plain_cases_do_not_overflow(self@, other@);
            }
        }
        match ratio_checked_mul(*self, *other) {
            Some(v) => Ok(v),
            None => Err(RationalError::ArithmeticOverflow),
        }
    }

    /// The quotient in lowest terms; `DivisionByZero` where `other` is zero,
    /// else `ArithmeticOverflow` where the division overflowed. Zero divided
    /// by anything but zero is zero.
    pub fn divide(&self, other: &Rational) -> (r: Result<Rational, RationalError>)
        ensures
            outcome(r) == checked_over(self@, other@),
            r matches Ok(v) ==> v@ == self@.over(other@),
    {
        proof {
            use_type_invariant(self);
            use_type_invariant(other);
            if self@.is_zero() && !other@.is_zero() {
                assert(self@.num * other@.den == 0) by (nonlinear_arith)
                    requires
                        self@.num == 0,
                ;
                assert(self@.den * other@.num != 0) by (nonlinear_arith)
                    requires
                        self@.den > 0,
                        other@.num != 0,
                ;
                lemma_reduced_zero(self@.den * other@.num);
            }
        }
        if other.is_zero() {
            return Err(RationalError::DivisionByZero);
        }
        if self.is_zero() {
            return Ok(Rational::zero());
        }
        match ratio_checked_div(*self, *other) {
            Some(v) => Ok(v),
            None => Err(RationalError::ArithmeticOverflow),
        }
    }

    /// The fraction with the sign of the numerator changed;
    /// `ArithmeticOverflow` where the numerator is -2^63.
    pub fn negate(&self) -> (r: Result<Rational, RationalError>)
        ensures
            outcome(r) == checked_negated(self@),
    {
        if self.numer == i64::MIN {
            return Err(RationalError::ArithmeticOverflow);
        }
        proof {
            use_type_invariant(self);
        }
        Ok(Rational { numer: -self.numer, denom: self.denom })
    }

    /// The quotient rounded towards zero.
    pub fn to_integer(&self) -> (q: i64)
        ensures
            q == self@.truncated(),
    {
        proof {
            use_type_invariant(self);
        }
        self.numer / self.denom
    }

    /// The smallest integer that is not below `self`, as a fraction over 1.
    pub fn ceil(&self) -> (r: Rational)
        ensures
            r@ == Fraction::integer(self@.ceiling()),
    {
        proof {
            use_type_invariant(self);
        }
        let q: i64 = self.numer / self.denom;
        let rest: i64 = self.numer % self.denom;
        if rest > 0 {
            proof {
                let n = self.numer as int;
                let d = self.denom as int;
                vstd::arithmetic::div_mod::lemma_fundamental_div_mod(n, d);
                vstd::arithmetic::div_mod::lemma_fundamental_div_mod(-n, d);
                assert(d >= 2);
                assert(q < 0x4000_0000_0000_0000) by (nonlinear_arith)
                    requires
                        n == d * q + rest,
                        d >= 2,
                        rest > 0,
                        n <= 0x7fff_ffff_ffff_ffff,
                ;
                assert((-n) / d == -q - 1) by (nonlinear_arith)
                    requires
                        n == d * q + rest,
                        -n == d * ((-n) / d) + (-n) % d,
                        0 < rest < d,
                        0 <= (-n) % d < d,
                ;
            }
            Rational::from_integer(q + 1)
        } else {
            proof {
                let n = self.numer as int;
                let d = self.denom as int;
                vstd::arithmetic::div_mod::lemma_fundamental_div_mod(n, d);
                vstd::arithmetic::div_mod::lemma_fundamental_div_mod(-n, d);
                if n >= 0 {
                    assert((-n) / d == -q) by (nonlinear_arith)
                        requires
                            n == d * q,
                            -n == d * ((-n) / d) + (-n) % d,
                            0 <= (-n) % d < d,
                    ;
                }
            }
            Rational::from_integer(q)
        }
    }
}

} // verus!
