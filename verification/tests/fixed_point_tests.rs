use margin_engine::error::Error;
use margin_engine::fixed_point::{
    exp10, FixedPoint, CONF_INTERVAL_MULTIPLE_BITS, MAX_EXP_10_FIXED, ONE_BITS,
};

const ONE: i128 = 1 << 48;

fn whole(n: i128) -> FixedPoint {
    FixedPoint::from_bits(n * ONE)
}

#[test]
fn one_is_two_to_the_forty_eight() {
    assert_eq!(ONE_BITS, 281474976710656);
    assert_eq!(FixedPoint::one().to_bits(), ONE);
    assert_eq!(FixedPoint::zero().to_bits(), 0);
    assert_eq!(FixedPoint::default().to_bits(), 0);
    assert_eq!(FixedPoint::max_value().to_bits(), i128::MAX);
}

#[test]
fn bits_agree_with_the_fixed_crate() {
    let ours = FixedPoint::from_u64(7);
    let theirs = fixed::types::I80F48::from_num(7u64);
    assert_eq!(ours.to_bits(), theirs.to_bits());
    let ours = FixedPoint::from_i64(-3);
    let theirs = fixed::types::I80F48::from_num(-3i64);
    assert_eq!(ours.to_bits(), theirs.to_bits());
}

#[test]
fn confidence_multiple_is_two_point_twelve() {
    let parsed: fixed::types::I80F48 = "2.12".parse().unwrap();
    assert_eq!(parsed.to_bits(), CONF_INTERVAL_MULTIPLE_BITS);
    assert_eq!(FixedPoint::conf_interval_multiple().to_bits(), 596726950626591);
}

#[test]
fn powers_of_ten() {
    assert_eq!(exp10(0), 1);
    assert_eq!(exp10(6), 1_000_000);
    assert_eq!(exp10(20), 100_000_000_000_000_000_000);
    assert_eq!(exp10(MAX_EXP_10_FIXED), 100_000_000_000_000_000_000_000);
    assert_eq!(FixedPoint::exp10_fixed(0), FixedPoint::one());
    assert_eq!(FixedPoint::exp10_fixed(3), whole(1000));
    assert_eq!(
        FixedPoint::exp10_fixed(23).to_bits(),
        100_000_000_000_000_000_000_000i128 * ONE
    );
}

#[test]
fn whole_numbers_from_wide_integers() {
    assert_eq!(FixedPoint::checked_from_i128(5), Some(whole(5)));
    assert_eq!(FixedPoint::checked_from_i128(-5), Some(whole(-5)));
    let limit: i128 = 1 << 79;
    assert_eq!(FixedPoint::checked_from_i128(limit), None);
    assert_eq!(
        FixedPoint::checked_from_i128(limit - 1),
        Some(FixedPoint::from_bits((limit - 1) << 48))
    );
    assert_eq!(
        FixedPoint::checked_from_i128(-limit),
        Some(FixedPoint::from_bits(i128::MIN))
    );
    assert_eq!(FixedPoint::checked_from_i128(-limit - 1), None);
}

#[test]
fn whole_part_rounds_down() {
    assert_eq!(whole(42).checked_to_u64(), Some(42));
    assert_eq!(FixedPoint::from_bits(42 * ONE + ONE - 1).checked_to_u64(), Some(42));
    assert_eq!(FixedPoint::from_bits(ONE - 1).checked_to_u64(), Some(0));
    assert_eq!(FixedPoint::from_bits(-1).checked_to_u64(), None);
    assert_eq!(whole(-1).checked_to_u64(), None);
    assert_eq!(
        FixedPoint::from_bits((u64::MAX as i128) << 48).checked_to_u64(),
        Some(u64::MAX)
    );
    assert_eq!(FixedPoint::from_bits(1i128 << 112).checked_to_u64(), None);
}

#[test]
fn sums_and_differences() {
    assert_eq!(whole(2).checked_add(whole(3)), Some(whole(5)));
    assert_eq!(whole(2).checked_sub(whole(3)), Some(whole(-1)));
    assert_eq!(FixedPoint::max_value().checked_add(FixedPoint::from_bits(1)), None);
    assert_eq!(FixedPoint::from_bits(i128::MIN).checked_sub(FixedPoint::from_bits(1)), None);
    assert_eq!(whole(2).try_add(whole(3)), Ok(whole(5)));
    assert_eq!(
        FixedPoint::max_value().try_add(FixedPoint::from_bits(1)),
        Err(Error::MathOverflow)
    );
    assert_eq!(whole(2).try_sub(whole(3)), Ok(whole(-1)));
    assert_eq!(
        FixedPoint::from_bits(i128::MIN).try_sub(FixedPoint::from_bits(1)),
        Err(Error::MathOverflow)
    );
}

#[test]
fn product_is_not_an_argument() {
    let a = FixedPoint::from_bits(3 * ONE / 2);
    let b = whole(2);
    assert_eq!(a.checked_mul(b), Some(whole(3)));
    assert_eq!(a.try_mul(b), Ok(whole(3)));
}

#[test]
fn product_rounds_toward_negative_infinity() {
    let smallest = FixedPoint::from_bits(1);
    let half = FixedPoint::from_bits(ONE / 2);
    assert_eq!(smallest.checked_mul(half), Some(FixedPoint::from_bits(0)));
    let negative = FixedPoint::from_bits(-1);
    assert_eq!(negative.checked_mul(half), Some(FixedPoint::from_bits(-1)));
    assert_eq!(
        FixedPoint::from_bits(-3).checked_mul(half),
        Some(FixedPoint::from_bits(-2))
    );
}

#[test]
fn product_out_of_range_is_refused() {
    assert_eq!(FixedPoint::max_value().checked_mul(whole(2)), None);
    assert_eq!(FixedPoint::max_value().try_mul(whole(2)), Err(Error::MathOverflow));
    assert_eq!(
        FixedPoint::max_value().checked_mul(FixedPoint::one()),
        Some(FixedPoint::max_value())
    );
}

#[test]
fn quotient_is_not_an_argument() {
    assert_eq!(whole(3).checked_div(whole(2)), Some(FixedPoint::from_bits(3 * ONE / 2)));
    assert_eq!(whole(3).try_div(whole(2)), Ok(FixedPoint::from_bits(3 * ONE / 2)));
}

#[test]
fn quotient_rounds_toward_zero() {
    let third = whole(1).checked_div(whole(3)).unwrap();
    assert_eq!(third.to_bits(), ONE / 3);
    let minus_third = whole(-1).checked_div(whole(3)).unwrap();
    assert_eq!(minus_third.to_bits(), -(ONE / 3));
    let other_minus_third = whole(1).checked_div(whole(-3)).unwrap();
    assert_eq!(other_minus_third.to_bits(), -(ONE / 3));
    let plus_third = whole(-1).checked_div(whole(-3)).unwrap();
    assert_eq!(plus_third.to_bits(), ONE / 3);
}

#[test]
fn quotient_by_zero_or_out_of_range_is_refused() {
    assert_eq!(whole(1).checked_div(FixedPoint::zero()), None);
    assert_eq!(whole(1).try_div(FixedPoint::zero()), Err(Error::MathOverflow));
    assert_eq!(FixedPoint::max_value().checked_div(FixedPoint::from_bits(ONE / 2)), None);
}

#[test]
fn comparisons() {
    assert!(whole(1).lt(&whole(2)));
    assert!(!whole(2).lt(&whole(2)));
    assert!(whole(2).le(&whole(2)));
    assert!(!whole(3).le(&whole(2)));
    assert!(FixedPoint::zero().is_zero());
    assert!(!FixedPoint::from_bits(1).is_zero());
    assert_eq!(whole(1).min(whole(2)), whole(1));
    assert_eq!(whole(2).min(whole(1)), whole(1));
    assert_eq!(whole(-2).min(whole(1)), whole(-2));
}
