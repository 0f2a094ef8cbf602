//! The mathematical model of a fraction: a pair of unbounded integers, the
//! greatest common divisor, the lowest-terms form of a quotient, and the
//! arithmetic of fractions stated on that form.

use vstd::arithmetic::div_mod::{
    lemma_div_multiples_vanish, lemma_fundamental_div_mod, lemma_mod_multiples_basic,
    lemma_mod_self_0, lemma_small_mod, lemma_truncate_middle,
};
use vstd::arithmetic::mul::lemma_mul_is_commutative;
use vstd::arithmetic::power2::{lemma_pow2_unfold, pow2};
use vstd::math::abs;
use vstd::prelude::*;

verus! {

/// The greatest common divisor of `a` and `b`, by Euclid's recursion.
/// `gcd(0, 0)` is 0.
pub open spec fn gcd(a: nat, b: nat) -> nat
    decreases a,
{
    if a == 0 {
        b
    } else {
        gcd(b % a, a)
    }
}

/// `d` divides `a` without remainder.
pub open spec fn divides(d: nat, a: nat) -> bool {
    d > 0 && a % d == 0
}

/// A multiple of `d` is divisible by `d`.
pub proof fn lemma_multiple_is_divisible(d: nat, k: nat)
    requires
        d > 0,
    ensures
        divides(d, d * k),
{
    lemma_mod_multiples_basic(k as int, d as int);
    lemma_mul_is_commutative(k as int, d as int);
}

/// A number divisible by `d` is `d` times its quotient.
pub proof fn lemma_divisible_is_multiple(d: nat, a: nat)
    requires
        divides(d, a),
    ensures
        a == d * (a / d),
{
    lemma_fundamental_div_mod(a as int, d as int);
}

/// `gcd(a, b)` is positive unless both arguments are 0, and it divides both.
pub proof fn lemma_gcd_divides(a: nat, b: nat)
    requires
        a > 0 || b > 0,
    ensures
        gcd(a, b) > 0,
        divides(gcd(a, b), a),
        divides(gcd(a, b), b),
    decreases a,
{
    if a == 0 {
        lemma_mod_self_0(b as int);
        lemma_small_mod(0, b);
    } else {
        let g = gcd(a, b);
        let r = b % a;
        lemma_gcd_divides(r, a);
        lemma_divisible_is_multiple(g, a);
        lemma_divisible_is_multiple(g, r);
        lemma_fundamental_div_mod(b as int, a as int);
        let x = a / g;
        let y = r / g;
        let q = b / a;
        assert(b == g * (x * q + y)) by (nonlinear_arith)
            requires
                b == a * q + r,
                a == g * x,
                r == g * y,
        ;
        lemma_multiple_is_divisible(g, x * q + y);
    }
}

/// Scaling both arguments scales the greatest common divisor.
pub proof fn lemma_gcd_scales(k: nat, a: nat, b: nat)
    requires
        k > 0,
    ensures
        gcd(k * a, k * b) == k * gcd(a, b),
    decreases a,
{
    if a == 0 {
        assert(k * a == 0) by (nonlinear_arith)
            requires
                a == 0,
        ;
    } else {
        assert(k * a > 0) by (nonlinear_arith)
            requires
                k > 0,
                a > 0,
        ;
        lemma_truncate_middle(b as int, k as int, a as int);
        assert((k * b) % (k * a) == k * (b % a));
        lemma_gcd_scales(k, b % a, a);
    }
}

/// Dividing two numbers by their greatest common divisor leaves them coprime.
pub proof fn lemma_quotients_by_gcd_are_coprime(a: nat, b: nat)
    requires
        a > 0 || b > 0,
    ensures
        gcd(a / gcd(a, b), b / gcd(a, b)) == 1,
{
    let g = gcd(a, b);
    lemma_gcd_divides(a, b);
    lemma_divisible_is_multiple(g, a);
    lemma_divisible_is_multiple(g, b);
    lemma_gcd_scales(g, a / g, b / g);
    let h = gcd(a / g, b / g);
    assert(h == 1) by (nonlinear_arith)
        requires
            g == g * h,
            g > 0,
    ;
}

/// The order of the two arguments makes no difference.
pub proof fn lemma_gcd_is_symmetric(a: nat, b: nat)
    ensures
        gcd(a, b) == gcd(b, a),
{
    reveal_with_fuel(gcd, 2);
    if a == 0 || b == 0 {
        if a > 0 {
            lemma_small_mod(0, a);
        }
        if b > 0 {
            lemma_small_mod(0, b);
        }
    } else if a < b {
        lemma_small_mod(a, b);
    } else if b < a {
        lemma_small_mod(b, a);
    }
}

/// What divides both numbers divides their greatest common divisor.
pub proof fn lemma_common_divisor_divides_gcd(d: nat, a: nat, b: nat)
    requires
        divides(d, a),
        divides(d, b),
    ensures
        gcd(a, b) % d == 0,
    decreases a,
{
    if a > 0 {
        let r = b % a;
        let q = b / a;
        lemma_fundamental_div_mod(b as int, a as int);
        lemma_divisible_is_multiple(d, a);
        lemma_divisible_is_multiple(d, b);
        let x = a / d;
        let y = b / d;
        let k = y - x * q;
        assert(r == d * k && k >= 0) by (nonlinear_arith)
            requires
                b == a * q + r,
                a == d * x,
                b == d * y,
                k == y - x * q,
                r >= 0,
                d > 0,
        ;
        lemma_multiple_is_divisible(d, k as nat);
        lemma_common_divisor_divides_gcd(d, r, a);
    }
}

/// What divides a product and shares no factor with one of the two divides
/// the other.
pub proof fn lemma_coprime_divisor(a: nat, b: nat, c: nat)
    requires
        gcd(a, b) == 1,
        divides(a, b * c),
    ensures
        divides(a, c),
{
    if c == 0 {
        lemma_small_mod(0, a);
    } else {
        lemma_gcd_scales(c, a, b);
        lemma_multiple_is_divisible(a, c);
        assert(a * c == c * a && b * c == c * b) by (nonlinear_arith);
        assert(c * 1 == c) by (nonlinear_arith);
        lemma_common_divisor_divides_gcd(a, c * a, c * b);
    }
}

/// Dividing an integer by a divisor of its magnitude is exact, and the
/// quotient is no larger in magnitude.
pub proof fn lemma_exact_quotient(x: int, g: nat)
    requires
        divides(g, abs(x)),
    ensures
        x == g * (x / (g as int)),
        abs(x / (g as int)) <= abs(x),
        x != 0 ==> x / (g as int) != 0,
{
    lemma_divisible_is_multiple(g, abs(x));
    let k = (abs(x) / g) as int;
    lemma_div_multiples_vanish(k, g as int);
    lemma_div_multiples_vanish(-k, g as int);
    assert(g * (-k) == -(g * k)) by (nonlinear_arith);
    let q = x / (g as int);
    assert(q == k || q == -k);
    assert(abs(q) <= abs(x) && (x != 0 ==> q != 0)) by (nonlinear_arith)
        requires
            abs(x) == g * k,
            abs(q) == k,
            g > 0,
            k >= 0,
            abs(x) == 0 <==> x == 0,
            abs(q) == 0 <==> q == 0,
    ;
}

/// If both numbers are even, so is their greatest common divisor.
pub proof fn lemma_gcd_of_evens_is_even(a: nat, b: nat)
    requires
        a % 2 == 0,
        b % 2 == 0,
    ensures
        gcd(a, b) % 2 == 0,
    decreases a,
{
    if a > 0 {
        let r = b % a;
        let q = b / a;
        lemma_fundamental_div_mod(b as int, a as int);
        let x = a / 2;
        let y = b / 2;
        assert(r == 2 * (y - x * q)) by (nonlinear_arith)
            requires
                b == a * q + r,
                a == 2 * x,
                b == 2 * y,
        ;
        lemma_gcd_of_evens_is_even(r, a);
    }
}

/// An odd divisor of a power of two is 1.
pub proof fn lemma_odd_divisor_of_power_of_two(d: nat, m: nat, e: nat)
    requires
        d * m == pow2(e),
        d % 2 == 1,
    ensures
        d == 1,
    decreases e,
{
    if e == 0 {
        assert(pow2(0) == 1) by {
            vstd::arithmetic::power2::lemma2_to64();
        }
        assert(d == 1) by (nonlinear_arith)
            requires
                d * m == 1,
        ;
    } else {
        lemma_pow2_unfold(e);
        let half = pow2((e - 1) as nat);
        let i = d / 2;
        let j = m / 2;
        if m % 2 == 1 {
            assert(d * m == 2 * (2 * i * j + i + j) + 1) by (nonlinear_arith)
                requires
                    d == 2 * i + 1,
                    m == 2 * j + 1,
            ;
        }
        assert(d * j == half) by (nonlinear_arith)
            requires
                d * m == 2 * half,
                m == 2 * j,
        ;
        lemma_odd_divisor_of_power_of_two(d, j, (e - 1) as nat);
    }
}

/// The greatest common divisor with 1 is 1.
pub proof fn lemma_gcd_with_one(a: nat)
    ensures
        gcd(a, 1) == 1,
        gcd(1, a) == 1,
{
    reveal_with_fuel(gcd, 3);
    if a > 1 {
        lemma_small_mod(1, a);
    }
}

/// A fraction as mathematics has it: any integer over any integer.
pub struct Fraction {
    pub num: int,
    pub den: int,
}

impl Fraction {
    /// The denominator is positive and shares no factor with the numerator.
    pub open spec fn in_lowest_terms(self) -> bool {
        self.den > 0 && gcd(abs(self.num), abs(self.den)) == 1
    }

    /// The lowest-terms form of `n / d`; meaningful for `d != 0`.
    pub open spec fn reduced(n: int, d: int) -> Fraction {
        let g = gcd(abs(n), abs(d)) as int;
        if d < 0 {
            Fraction { num: (-n) / g, den: (-d) / g }
        } else {
            Fraction { num: n / g, den: d / g }
        }
    }

    pub open spec fn zero() -> Fraction {
        Fraction { num: 0, den: 1 }
    }

    pub open spec fn integer(n: int) -> Fraction {
        Fraction { num: n, den: 1 }
    }

    /// Both parts are `i64` values.
    pub open spec fn fits_i64(self) -> bool {
        i64::MIN <= self.num <= i64::MAX && i64::MIN <= self.den <= i64::MAX
    }

    pub open spec fn plus(self, other: Fraction) -> Fraction {
        Fraction::reduced(self.num * other.den + other.num * self.den, self.den * other.den)
    }

    pub open spec fn minus(self, other: Fraction) -> Fraction {
        Fraction::reduced(self.num * other.den - other.num * self.den, self.den * other.den)
    }

    pub open spec fn times(self, other: Fraction) -> Fraction {
        Fraction::reduced(self.num * other.num, self.den * other.den)
    }

    /// The quotient; meaningful for `other.num != 0`.
    pub open spec fn over(self, other: Fraction) -> Fraction {
        Fraction::reduced(self.num * other.den, self.den * other.num)
    }

    pub open spec fn negated(self) -> Fraction {
        Fraction { num: -self.num, den: self.den }
    }

    /// Strict order by cross-multiplication; meaningful for positive
    /// denominators.
    pub open spec fn less_than(self, other: Fraction) -> bool {
        self.num * other.den < other.num * self.den
    }

    /// The quotient rounded towards zero; meaningful for a positive
    /// denominator.
    pub open spec fn truncated(self) -> int {
        if self.num >= 0 {
            self.num / self.den
        } else {
            -((-self.num) / self.den)
        }
    }

    /// The largest integer that is not above the quotient; meaningful for a
    /// positive denominator.
    pub open spec fn floor(self) -> int {
        self.num / self.den
    }

    /// The smallest integer that is not below the quotient; meaningful for a
    /// positive denominator.
    pub open spec fn ceiling(self) -> int {
        -((-self.num) / self.den)
    }

    pub open spec fn is_zero(self) -> bool {
        self.num == 0
    }

    pub open spec fn is_positive(self) -> bool {
        self.num > 0
    }

    pub open spec fn is_negative(self) -> bool {
        self.num < 0
    }
}

/// What `reduced(n, d)` consists of: the magnitudes divided by their greatest
/// common divisor, the denominator positive and the sign on the numerator.
pub proof fn lemma_reduced_parts(n: int, d: int)
    requires
        d != 0,
    ensures
        ({
            let g = gcd(abs(n), abs(d));
            let r = Fraction::reduced(n, d);
            &&& g > 0
            &&& r.den > 0
            &&& r.den * g == abs(d)
            &&& abs(r.num) * g == abs(n)
            &&& (r.num < 0 <==> n != 0 && (n < 0) != (d < 0))
        }),
{
    let a = abs(n);
    let b = abs(d);
    let g = gcd(a, b);
    lemma_gcd_divides(a, b);
    lemma_divisible_is_multiple(g, a);
    lemma_divisible_is_multiple(g, b);
    let x = (a / g) as int;
    let y = (b / g) as int;
    assert(y > 0 && x >= 0) by (nonlinear_arith)
        requires
            b == g * y,
            a == g * x,
            b > 0,
            a >= 0,
            g > 0,
    ;
    assert(g * (-x) == -(g * x)) by (nonlinear_arith);
    lemma_div_multiples_vanish(x, g as int);
    lemma_div_multiples_vanish(-x, g as int);
    lemma_div_multiples_vanish(y, g as int);
    let r = Fraction::reduced(n, d);
    assert(r.den == y);
    assert(r.num == x || r.num == -x);
    assert(r.den * g == b) by (nonlinear_arith)
        requires
            r.den == y,
            b == g * y,
    ;
    assert(abs(r.num) * g == a) by (nonlinear_arith)
        requires
            abs(r.num) == x,
            a == g * x,
    ;
    assert(x == 0 <==> n == 0) by (nonlinear_arith)
        requires
            a == g * x,
            g > 0,
            a == 0 <==> n == 0,
    ;
}

/// `reduced(n, d)` is in lowest terms.
pub proof fn lemma_reduced_in_lowest_terms(n: int, d: int)
    requires
        d != 0,
    ensures
        Fraction::reduced(n, d).in_lowest_terms(),
{
    let a = abs(n);
    let b = abs(d);
    let g = gcd(a, b);
    let r = Fraction::reduced(n, d);
    lemma_reduced_parts(n, d);
    lemma_div_multiples_vanish(abs(r.num) as int, g as int);
    lemma_div_multiples_vanish(r.den, g as int);
    assert(g * abs(r.num) == abs(r.num) * g) by (nonlinear_arith);
    assert(g * r.den == r.den * g) by (nonlinear_arith);
    assert(abs(r.num) == a / g);
    assert(abs(r.den) == b / g);
    lemma_quotients_by_gcd_are_coprime(a, b);
}

/// `reduced(n, d)` stands for the same quotient as `n / d`.
pub proof fn lemma_reduced_keeps_value(n: int, d: int)
    requires
        d != 0,
    ensures
        Fraction::reduced(n, d).num * d == n * Fraction::reduced(n, d).den,
{
    let g = gcd(abs(n), abs(d)) as int;
    let r = Fraction::reduced(n, d);
    lemma_reduced_parts(n, d);
    let x = abs(r.num) as int;
    let y = r.den;
    assert(r.num * d == n * r.den) by (nonlinear_arith)
        requires
            y * g == abs(d),
            x * g == abs(n),
            r.den == y,
            r.num == x || r.num == -x,
            r.num < 0 <==> n != 0 && (n < 0) != (d < 0),
            x >= 0,
            y > 0,
            g > 0,
            d != 0,
            abs(d) == d || abs(d) == -d,
            abs(n) == n || abs(n) == -n,
            abs(d) >= 0,
            abs(n) >= 0,
    ;
}

/// No part of `reduced(n, d)` is larger in magnitude than the part of `n / d`
/// it came from.
pub proof fn lemma_reduced_is_no_larger(n: int, d: int)
    requires
        d != 0,
    ensures
        abs(Fraction::reduced(n, d).num) <= abs(n),
        0 < Fraction::reduced(n, d).den <= abs(d),
{
    let g = gcd(abs(n), abs(d)) as int;
    let r = Fraction::reduced(n, d);
    lemma_reduced_parts(n, d);
    assert(abs(r.num) <= abs(n) && r.den <= abs(d)) by (nonlinear_arith)
        requires
            r.den * g == abs(d),
            abs(r.num) * g == abs(n),
            g > 0,
            r.den > 0,
            abs(r.num) >= 0,
    ;
}

/// A fraction in lowest terms is its own reduced form.
pub proof fn lemma_lowest_terms_is_reduced(f: Fraction)
    requires
        f.in_lowest_terms(),
    ensures
        Fraction::reduced(f.num, f.den) == f,
{
}

/// The numerator 0 reduces to zero over one, whatever the denominator.
pub proof fn lemma_reduced_zero(d: int)
    requires
        d != 0,
    ensures
        Fraction::reduced(0, d) == Fraction::zero(),
{
    lemma_reduced_parts(0, d);
    assert(Fraction::reduced(0, d).den == 1) by (nonlinear_arith)
        requires
            Fraction::reduced(0, d).den * (gcd(0, abs(d)) as int) == abs(d),
            gcd(0, abs(d)) == abs(d),
            abs(d) > 0,
    ;
}

/// Adding zero to a fraction in lowest terms leaves it as it is.
pub proof fn lemma_zero_is_neutral(a: Fraction, zero: Fraction)
    requires
        a.in_lowest_terms(),
        zero.in_lowest_terms(),
        zero.is_zero(),
    ensures
        zero == Fraction::zero(),
        a.plus(zero) == a,
{
    lemma_lowest_terms_is_zero(zero);
    assert(a.num * 1 + 0 * a.den == a.num) by (nonlinear_arith);
    assert(a.den * 1 == a.den) by (nonlinear_arith);
}

/// A fraction in lowest terms with numerator 0 is zero over one.
pub proof fn lemma_lowest_terms_is_zero(zero: Fraction)
    requires
        zero.in_lowest_terms(),
        zero.is_zero(),
    ensures
        zero == Fraction::zero(),
{
    assert(gcd(0, abs(zero.den)) == abs(zero.den));
}

/// Zero times a fraction is zero.
pub proof fn lemma_zero_times(zero: Fraction, b: Fraction)
    requires
        zero.in_lowest_terms(),
        zero.is_zero(),
        b.den > 0,
    ensures
        zero.times(b) == Fraction::zero(),
{
    lemma_lowest_terms_is_zero(zero);
    assert(0 * b.num == 0) by (nonlinear_arith);
    assert(1 * b.den == b.den) by (nonlinear_arith);
    lemma_reduced_zero(b.den);
}

/// A sum, a difference and a product have a denominator above zero,
/// whatever the signs of the denominators they are made of, as long as
/// neither is zero.
pub proof fn lemma_results_have_positive_denominators(a: Fraction, b: Fraction)
    requires
        a.den != 0,
        b.den != 0,
    ensures
        a.plus(b).den > 0,
        a.minus(b).den > 0,
        a.times(b).den > 0,
{
    assert(a.den * b.den != 0) by (nonlinear_arith)
        requires
            a.den != 0,
            b.den != 0,
    ;
    lemma_reduced_parts(a.num * b.den + b.num * a.den, a.den * b.den);
    lemma_reduced_parts(a.num * b.den - b.num * a.den, a.den * b.den);
    lemma_reduced_parts(a.num * b.num, a.den * b.den);
}

/// The sum of a fraction that is not negative and one above zero is above
/// zero.
pub proof fn lemma_plus_of_positive_is_positive(a: Fraction, b: Fraction)
    requires
        a.den > 0,
        b.den > 0,
        a.num >= 0,
        b.num > 0,
    ensures
        a.plus(b).is_positive(),
{
    let n = a.num * b.den + b.num * a.den;
    let d = a.den * b.den;
    assert(n > 0 && d > 0) by (nonlinear_arith)
        requires
            n == a.num * b.den + b.num * a.den,
            d == a.den * b.den,
            a.den > 0,
            b.den > 0,
            a.num >= 0,
            b.num > 0,
    ;
    lemma_reduced_parts(n, d);
    let r = Fraction::reduced(n, d);
    let g = gcd(abs(n), abs(d)) as int;
    assert(r.num != 0) by (nonlinear_arith)
        requires
            abs(r.num) * g == abs(n),
            abs(n) > 0,
            abs(r.num) == 0 <==> r.num == 0,
    ;
}

/// The count of whole weeks is the floor of stock over weekly dose: so many
/// weeks' doses are in the stock, and one week's more is not. This holds for
/// a stock that is not negative and a weekly dose above zero.
pub proof fn law_whole_weeks_is_floor(stock: Fraction, weekly: Fraction)
    requires
        stock.den > 0,
        weekly.den > 0,
        stock.num >= 0,
        weekly.num > 0,
    ensures
        ({
            let weeks = stock.over(weekly).truncated();
            &&& weeks == stock.over(weekly).floor()
            &&& weeks >= 0
            &&& weeks * (weekly.num * stock.den) <= stock.num * weekly.den
            &&& stock.num * weekly.den < (weeks + 1) * (weekly.num * stock.den)
        }),
{
    let n = stock.num * weekly.den;
    let d = stock.den * weekly.num;
    assert(n >= 0 && d > 0) by (nonlinear_arith)
        requires
            n == stock.num * weekly.den,
            d == stock.den * weekly.num,
            stock.den > 0,
            weekly.den > 0,
            stock.num >= 0,
            weekly.num > 0,
    ;
    let q = Fraction::reduced(n, d);
    lemma_reduced_parts(n, d);
    lemma_reduced_keeps_value(n, d);
    let w = q.num / q.den;
    let rest = q.num % q.den;
    lemma_fundamental_div_mod(q.num, q.den);
    assert(w >= 0) by (nonlinear_arith)
        requires
            q.num == q.den * w + rest,
            0 <= rest < q.den,
            q.num >= 0,
            q.den > 0,
    ;
    assert(w * d <= n && n < (w + 1) * d) by (nonlinear_arith)
        requires
            q.num == q.den * w + rest,
            0 <= rest < q.den,
            q.num * d == n * q.den,
            q.den > 0,
            d > 0,
    ;
    assert(weekly.num * stock.den == d) by (nonlinear_arith)
        requires
            d == stock.den * weekly.num,
    ;
}

/// Two fractions in lowest terms that stand for the same quotient are the
/// same fraction: the lowest-terms form is unique.
pub proof fn law_lowest_terms_is_unique(f: Fraction, g: Fraction)
    requires
        f.in_lowest_terms(),
        g.in_lowest_terms(),
        f.num * g.den == g.num * f.den,
    ensures
        f == g,
{
    let a = abs(f.num);
    let b = abs(f.den);
    let c = abs(g.num);
    let d = abs(g.den);
    assert(a * d == c * b) by (nonlinear_arith)
        requires
            f.num * g.den == g.num * f.den,
            a == f.num || a == -f.num,
            c == g.num || c == -g.num,
            a >= 0,
            c >= 0,
            d == g.den,
            b == f.den,
            d > 0,
            b > 0,
    ;
    // each denominator divides the other
    lemma_gcd_is_symmetric(a, b);
    lemma_gcd_is_symmetric(c, d);
    lemma_multiple_is_divisible(b, c);
    assert(b * c == a * d) by (nonlinear_arith)
        requires
            a * d == c * b,
    ;
    lemma_coprime_divisor(b, a, d);
    lemma_multiple_is_divisible(d, a);
    assert(d * a == c * b) by (nonlinear_arith)
        requires
            a * d == c * b,
    ;
    lemma_coprime_divisor(d, c, b);
    lemma_divisible_is_multiple(b, d);
    lemma_divisible_is_multiple(d, b);
    let k = d / b;
    let m = b / d;
    assert(b == d) by (nonlinear_arith)
        requires
            d == b * k,
            b == d * m,
            b > 0,
            d > 0,
            k >= 0,
            m >= 0,
    ;
    assert(f.num == g.num) by (nonlinear_arith)
        requires
            f.num * g.den == g.num * f.den,
            f.den == g.den,
            f.den > 0,
    ;
}

/// The fraction in lowest terms that stands for the quotient `n / d` is the
/// reduced form of `n / d`, and no other is.
pub proof fn law_reduced_is_the_lowest_terms(n: int, d: int, f: Fraction)
    requires
        d != 0,
        f.in_lowest_terms(),
        f.num * d == n * f.den,
    ensures
        Fraction::reduced(n, d) == f,
{
    let r = Fraction::reduced(n, d);
    lemma_reduced_in_lowest_terms(n, d);
    lemma_reduced_keeps_value(n, d);
    assert(r.num * f.den == f.num * r.den) by (nonlinear_arith)
        requires
            r.num * d == n * r.den,
            f.num * d == n * f.den,
            d != 0,
    ;
    law_lowest_terms_is_unique(r, f);
}

/// Two quotients that are equal by cross-multiplication have the same
/// reduced form.
pub proof fn lemma_equal_quotients_reduce_alike(n1: int, d1: int, n2: int, d2: int)
    requires
        d1 != 0,
        d2 != 0,
        n1 * d2 == n2 * d1,
    ensures
        Fraction::reduced(n1, d1) == Fraction::reduced(n2, d2),
{
    let r = Fraction::reduced(n2, d2);
    lemma_reduced_in_lowest_terms(n2, d2);
    lemma_reduced_keeps_value(n2, d2);
    assert(r.num * d1 == n1 * r.den) by (nonlinear_arith)
        requires
            r.num * d2 == n2 * r.den,
            n1 * d2 == n2 * d1,
            d2 != 0,
    ;
    law_reduced_is_the_lowest_terms(n1, d1, r);
}

/// A sum of two fractions plus a third stands for all three numerators
/// brought to the product of the three denominators.
proof fn lemma_sum_of_three(a: Fraction, b: Fraction, c: Fraction)
    requires
        a.den != 0,
        b.den != 0,
        c.den != 0,
    ensures
        a.plus(b).plus(c) == Fraction::reduced(
            a.num * (b.den * c.den) + b.num * (a.den * c.den) + c.num * (a.den * b.den),
            a.den * (b.den * c.den),
        ),
{
    let s = a.plus(b);
    let n_ab = a.num * b.den + b.num * a.den;
    let d_ab = a.den * b.den;
    assert(d_ab != 0) by (nonlinear_arith)
        requires
            d_ab == a.den * b.den,
            a.den != 0,
            b.den != 0,
    ;
    lemma_reduced_keeps_value(n_ab, d_ab);
    lemma_reduced_parts(n_ab, d_ab);
    let n = a.num * (b.den * c.den) + b.num * (a.den * c.den) + c.num * (a.den * b.den);
    let d = a.den * (b.den * c.den);
    let left_n = s.num * c.den + c.num * s.den;
    let left_d = s.den * c.den;
    assert(d != 0 && left_d != 0) by (nonlinear_arith)
        requires
            d == a.den * (b.den * c.den),
            left_d == s.den * c.den,
            a.den != 0,
            b.den != 0,
            c.den != 0,
            s.den > 0,
    ;
    assert(n == n_ab * c.den + c.num * d_ab && d == d_ab * c.den) by (nonlinear_arith)
        requires
            n == a.num * (b.den * c.den) + b.num * (a.den * c.den) + c.num * (a.den * b.den),
            d == a.den * (b.den * c.den),
            n_ab == a.num * b.den + b.num * a.den,
            d_ab == a.den * b.den,
    ;
    let sn = s.num;
    let sd = s.den;
    let cn = c.num;
    let cd = c.den;
    let k = cd * cd;
    assert((sn * cd + cn * sd) * (d_ab * cd) == (sn * cd) * (d_ab * cd) + (cn * sd) * (d_ab * cd))
        by (nonlinear_arith);
    assert((n_ab * cd + cn * d_ab) * (sd * cd) == (n_ab * cd) * (sd * cd) + (cn * d_ab) * (sd * cd))
        by (nonlinear_arith);
    assert((sn * cd) * (d_ab * cd) == (sn * d_ab) * k) by (nonlinear_arith)
        requires
            k == cd * cd,
    ;
    assert((n_ab * cd) * (sd * cd) == (n_ab * sd) * k) by (nonlinear_arith)
        requires
            k == cd * cd,
    ;
    assert((cn * sd) * (d_ab * cd) == (cn * d_ab) * (sd * cd)) by (nonlinear_arith);
    assert(left_n * d == n * left_d);
    lemma_equal_quotients_reduce_alike(left_n, left_d, n, d);
}

/// Adding three fractions gives the same however they are grouped.
pub proof fn law_plus_is_associative(a: Fraction, b: Fraction, c: Fraction)
    requires
        a.den != 0,
        b.den != 0,
        c.den != 0,
    ensures
        a.plus(b).plus(c) == a.plus(b.plus(c)),
{
    lemma_sum_of_three(a, b, c);
    lemma_sum_of_three(b, c, a);
    law_plus_commutes(a, b.plus(c));
    let x = a.num * (b.den * c.den) + b.num * (a.den * c.den) + c.num * (a.den * b.den);
    let y = b.num * (c.den * a.den) + c.num * (b.den * a.den) + a.num * (b.den * c.den);
    assert(x == y && a.den * (b.den * c.den) == b.den * (c.den * a.den)) by (nonlinear_arith)
        requires
            x == a.num * (b.den * c.den) + b.num * (a.den * c.den) + c.num * (a.den * b.den),
            y == b.num * (c.den * a.den) + c.num * (b.den * a.den) + a.num * (b.den * c.den),
    ;
}

/// Adding two fractions gives the same whichever comes first.
pub proof fn law_plus_commutes(a: Fraction, b: Fraction)
    ensures
        a.plus(b) == b.plus(a),
{
    assert(a.den * b.den == b.den * a.den) by (nonlinear_arith);
}

/// Multiplying two fractions gives the same whichever comes first.
pub proof fn law_times_commutes(a: Fraction, b: Fraction)
    ensures
        a.times(b) == b.times(a),
{
    assert(a.num * b.num == b.num * a.num) by (nonlinear_arith);
    assert(a.den * b.den == b.den * a.den) by (nonlinear_arith);
}

/// A fraction minus itself is zero: numerator 0 over denominator 1.
pub proof fn law_minus_self_is_zero(a: Fraction)
    requires
        a.den != 0,
    ensures
        a.minus(a) == Fraction::zero(),
{
    let d = a.den * a.den;
    assert(d > 0) by (nonlinear_arith)
        requires
            d == a.den * a.den,
            a.den != 0,
    ;
    lemma_reduced_zero(d);
}

/// Whatever the numerator and whatever denominator but 0, the reduced form
/// has a positive denominator that shares no factor with the numerator, and
/// stands for the same quotient.
pub proof fn law_reduced_is_canonical(n: int, d: int)
    requires
        d != 0,
    ensures
        Fraction::reduced(n, d).den > 0,
        gcd(abs(Fraction::reduced(n, d).num), abs(Fraction::reduced(n, d).den)) == 1,
        Fraction::reduced(n, d).num * d == n * Fraction::reduced(n, d).den,
{
    lemma_reduced_in_lowest_terms(n, d);
    lemma_reduced_keeps_value(n, d);
}

} // verus!
