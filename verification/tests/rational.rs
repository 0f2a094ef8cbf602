use med_ledger::rational::{Rational, RationalError};

fn frac(n: i64, d: i64) -> Rational {
    Rational::create(n, d).unwrap()
}

#[test]
fn create_brings_into_lowest_terms() {
    let r = frac(6, 4);
    assert_eq!(r.numer(), 3);
    assert_eq!(r.denom(), 2);
    let r = frac(6, -4);
    assert_eq!(r.numer(), -3);
    assert_eq!(r.denom(), 2);
    let r = frac(-6, -4);
    assert_eq!(r.numer(), 3);
    assert_eq!(r.denom(), 2);
    let r = frac(0, -7);
    assert_eq!(r.numer(), 0);
    assert_eq!(r.denom(), 1);
    let r = frac(7, 7);
    assert_eq!((r.numer(), r.denom()), (1, 1));
}

#[test]
fn create_rejects_zero_denominator() {
    assert_eq!(Rational::create(1, 0), Err(RationalError::InvalidFraction));
    assert_eq!(Rational::create(0, 0), Err(RationalError::InvalidFraction));
}

#[test]
fn create_at_the_edge_of_the_range() {
    assert_eq!(Rational::create(1, i64::MIN), Err(RationalError::ArithmeticOverflow));
    assert_eq!(Rational::create(i64::MIN, -1), Err(RationalError::ArithmeticOverflow));
    assert_eq!(Rational::create(i64::MIN, -3), Err(RationalError::ArithmeticOverflow));
    assert_eq!(Rational::create(3, i64::MIN), Err(RationalError::ArithmeticOverflow));
    assert_eq!(Rational::create(i64::MIN, i64::MIN), Ok(frac(1, 1)));
    assert_eq!(Rational::create(0, i64::MIN), Ok(frac(0, 1)));
    assert_eq!(Rational::create(i64::MIN, -2), Ok(frac(1 << 62, 1)));
    assert_eq!(Rational::create(6, i64::MIN), Ok(frac(-3, 1 << 62)));
    assert_eq!(Rational::create(i64::MIN, 1).map(|r| r.numer()), Ok(i64::MIN));
    assert_eq!(
        Rational::create(i64::MIN, 6).map(|r| (r.numer(), r.denom())),
        Ok((i64::MIN / 2, 3))
    );
    assert_eq!(
        Rational::create(i64::MAX, -1).map(|r| (r.numer(), r.denom())),
        Ok((-i64::MAX, 1))
    );
}

#[test]
fn zero_and_integers() {
    assert_eq!(Rational::zero(), frac(0, 1));
    assert_eq!(Rational::from_integer(5), frac(5, 1));
    assert_eq!(Rational::from_integer(-5), frac(5, -1));
    assert!(Rational::zero().is_zero());
    assert!(!frac(1, 3).is_zero());
    assert!(frac(1, 3).is_positive());
    assert!(frac(-1, 3).is_negative());
    assert!(!Rational::zero().is_positive());
    assert!(!Rational::zero().is_negative());
}

#[test]
fn sums_and_products_do_not_depend_on_the_order() {
    let values = [frac(1, 2), frac(-2, 3), frac(5, 1), frac(0, 1), frac(7, 12), frac(-9, 4)];
    for a in values.iter() {
        for b in values.iter() {
            assert_eq!(a.add(b), b.add(a));
            assert_eq!(a.multiply(b), b.multiply(a));
        }
        assert_eq!(a.subtract(a).unwrap().numer(), 0);
        assert_eq!(a.subtract(a), Ok(Rational::zero()));
    }
    let big = frac(i64::MAX, 1);
    let odd = frac(1, i64::MAX - 1);
    assert_eq!(big.add(&odd), odd.add(&big));
    assert_eq!(big.multiply(&big), Err(RationalError::ArithmeticOverflow));
    assert_eq!(big.subtract(&big), Ok(Rational::zero()));
    let least = frac(i64::MIN, 1);
    assert_eq!(least.subtract(&least), Ok(Rational::zero()));
}

#[test]
fn the_four_operations_are_exact() {
    assert_eq!(frac(1, 2).add(&frac(1, 3)), Ok(frac(5, 6)));
    assert_eq!(frac(1, 6).add(&frac(1, 3)), Ok(frac(1, 2)));
    assert_eq!(frac(2, 3).add(&frac(1, 3)), Ok(frac(1, 1)));
    assert_eq!(frac(1, 2).subtract(&frac(1, 3)), Ok(frac(1, 6)));
    assert_eq!(frac(1, 3).subtract(&frac(1, 2)), Ok(frac(-1, 6)));
    assert_eq!(frac(2, 3).multiply(&frac(3, 4)), Ok(frac(1, 2)));
    assert_eq!(frac(-2, 3).multiply(&frac(3, 4)), Ok(frac(-1, 2)));
    assert_eq!(frac(2, 3).divide(&frac(4, 9)), Ok(frac(3, 2)));
    assert_eq!(frac(2, 3).divide(&frac(-4, 9)), Ok(frac(-3, 2)));
    assert_eq!(frac(14, 1).divide(&frac(14, 1)), Ok(frac(1, 1)));
    assert_eq!(frac(1, 3).divide(&frac(2, 3)), Ok(frac(1, 2)));
}

#[test]
fn division_by_zero_fails() {
    assert_eq!(frac(1, 2).divide(&frac(0, 1)), Err(RationalError::DivisionByZero));
    assert_eq!(frac(0, 1).divide(&frac(0, 1)), Err(RationalError::DivisionByZero));
    assert_eq!(frac(i64::MIN, 1).divide(&Rational::zero()), Err(RationalError::DivisionByZero));
}

#[test]
fn zero_divided_is_zero() {
    assert_eq!(Rational::zero().divide(&frac(3, 7)), Ok(Rational::zero()));
    assert_eq!(Rational::zero().divide(&frac(-3, 7)), Ok(Rational::zero()));
    assert_eq!(Rational::zero().divide(&frac(i64::MIN, 3)), Ok(Rational::zero()));
    assert_eq!(Rational::zero().divide(&frac(i64::MIN, 1)), Ok(Rational::zero()));
}

#[test]
fn overflow_is_reported() {
    let big = frac(i64::MAX, 1);
    assert_eq!(big.add(&frac(1, 1)), Err(RationalError::ArithmeticOverflow));
    assert_eq!(frac(i64::MIN, 1).subtract(&frac(1, 1)), Err(RationalError::ArithmeticOverflow));
    assert_eq!(big.multiply(&frac(2, 1)), Err(RationalError::ArithmeticOverflow));
    assert_eq!(frac(1, i64::MAX).divide(&frac(2, 1)), Err(RationalError::ArithmeticOverflow));
    assert_eq!(frac(i64::MIN, 1).divide(&frac(-1, 1)), Err(RationalError::ArithmeticOverflow));
    assert_eq!(frac(1, i64::MAX).add(&frac(1, i64::MAX - 1)), Err(RationalError::ArithmeticOverflow));
}

#[test]
fn negation_flips_the_numerator() {
    assert_eq!(frac(1, 2).negate(), Ok(frac(-1, 2)));
    assert_eq!(frac(-1, 2).negate(), Ok(frac(1, 2)));
    assert_eq!(Rational::zero().negate(), Ok(Rational::zero()));
    assert_eq!(frac(i64::MAX, 1).negate(), Ok(frac(-i64::MAX, 1)));
    assert_eq!(frac(i64::MIN, 1).negate(), Err(RationalError::ArithmeticOverflow));
}

#[test]
fn order_is_by_cross_multiplication() {
    assert!(frac(1, 3).lt(&frac(1, 2)));
    assert!(!frac(1, 2).lt(&frac(1, 3)));
    assert!(!frac(1, 2).lt(&frac(2, 4)));
    assert!(frac(1, 2).le(&frac(2, 4)));
    assert!(frac(1, 2).ge(&frac(2, 4)));
    assert!(frac(-1, 2).lt(&frac(1, 3)));
    assert!(frac(1, 3).gt(&frac(-1, 2)));
    assert!(frac(-1, 2).lt(&frac(-1, 3)));
    assert!(frac(i64::MAX - 1, i64::MAX).lt(&frac(i64::MAX, i64::MAX - 1)));
    assert!(frac(i64::MIN, 1).lt(&frac(i64::MAX, 1)));
    assert!(frac(i64::MIN, i64::MAX).lt(&frac(i64::MIN + 1, i64::MAX)));
    assert!(frac(1, i64::MAX).gt(&Rational::zero()));
}

#[test]
fn rounding() {
    assert_eq!(frac(7, 2).ceil(), frac(4, 1));
    assert_eq!(frac(-7, 2).ceil(), frac(-3, 1));
    assert_eq!(frac(4, 1).ceil(), frac(4, 1));
    assert_eq!(frac(-4, 1).ceil(), frac(-4, 1));
    assert_eq!(frac(1, 3).ceil(), frac(1, 1));
    assert_eq!(frac(-1, 3).ceil(), frac(0, 1));
    assert_eq!(Rational::zero().ceil(), Rational::zero());
    assert_eq!(frac(i64::MAX, 1).ceil(), frac(i64::MAX, 1));
    assert_eq!(frac(i64::MAX, 2).ceil(), frac(i64::MAX / 2 + 1, 1));
    assert_eq!(frac(i64::MIN, 1).ceil(), frac(i64::MIN, 1));
    assert_eq!(frac(7, 2).to_integer(), 3);
    assert_eq!(frac(-7, 2).to_integer(), -3);
    assert_eq!(frac(6, 2).to_integer(), 3);
    assert_eq!(frac(1, 3).to_integer(), 0);
}

#[test]
fn sums_do_not_depend_on_the_grouping() {
    let values = [frac(1, 2), frac(-2, 3), frac(5, 1), frac(0, 1), frac(7, 12), frac(-9, 4)];
    for a in values.iter() {
        for b in values.iter() {
            for c in values.iter() {
                let left = a.add(b).unwrap().add(c);
                let right = a.add(&b.add(c).unwrap());
                assert_eq!(left, right);
            }
        }
    }
}

#[test]
fn whole_numbers_are_added_as_integers() {
    assert_eq!(frac(5, 1).subtract(&frac(7, 1)), Ok(frac(-2, 1)));
    assert_eq!(frac(5, 1).add(&frac(7, 1)), Ok(frac(12, 1)));
    assert_eq!(frac(5, 1).multiply(&frac(7, 1)), Ok(frac(35, 1)));
    assert_eq!(frac(i64::MAX, 1).add(&frac(1, 1)), Err(RationalError::ArithmeticOverflow));
    assert_eq!(frac(i64::MAX, 1).add(&frac(-1, 1)), Ok(frac(i64::MAX - 1, 1)));
    assert_eq!(frac(i64::MIN, 1).subtract(&frac(-1, 1)), Ok(frac(i64::MIN + 1, 1)));
    assert_eq!(frac(i64::MIN, 1).multiply(&frac(-1, 1)), Err(RationalError::ArithmeticOverflow));
    assert_eq!(frac(i64::MIN, 1).multiply(&frac(1, 1)), Ok(frac(i64::MIN, 1)));
}
