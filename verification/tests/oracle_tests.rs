use margin_engine::error::Error;
use margin_engine::fixed_point::FixedPoint;
use margin_engine::oracle::{
    denormalize, fit_scale_switchboard_decimal, normalize, price_range,
    pyth_price_components_to_i80f48, switchboard_decimal_to_i80f48, AggregatorResolutionMode,
    OracleFeed, PriceData, PythPrice, PythPriceFeed, SwitchboardDecimal, SwitchboardPriceFeed,
    UpdatedAt,
};

const ONE: i128 = 1 << 48;

fn pyth(price: i64, conf: u64, expo: i32) -> PythPriceFeed {
    PythPriceFeed { last_update_slot: 7, price: PythPrice { price, conf, expo, publish_time: 0 } }
}

fn decimal(mantissa: i128, scale: u32) -> SwitchboardDecimal {
    SwitchboardDecimal { mantissa, scale }
}

fn switchboard(result: SwitchboardDecimal, deviation: SwitchboardDecimal) -> SwitchboardPriceFeed {
    SwitchboardPriceFeed {
        last_update_ts: 1,
        resolution_mode: AggregatorResolutionMode::ModeRoundResolution,
        latest_confirmed_round_result: result,
        latest_confirmed_round_num_success: 3,
        latest_confirmed_round_std_deviation: deviation,
        min_oracle_results: 3,
    }
}

#[test]
fn pyth_price_with_negative_exponent() {
    let feed = pyth(12345678, 1234, -5);
    assert_eq!(feed.get_price(), Ok(FixedPoint::from_bits(34749994275272581)));
}

#[test]
fn pyth_price_with_zero_exponent() {
    let feed = pyth(-42, 0, 0);
    assert_eq!(feed.get_price(), Ok(FixedPoint::from_bits(-42 * ONE)));
}

#[test]
fn pyth_price_with_positive_exponent() {
    let feed = pyth(42, 0, 3);
    assert_eq!(feed.get_price(), Ok(FixedPoint::from_bits(42_000 * ONE)));
}

#[test]
fn pyth_confidence_is_widened() {
    let feed = pyth(12345678, 1234, -5);
    assert_eq!(feed.get_confidence_interval(), Ok(FixedPoint::from_bits(7363610570731)));
}

#[test]
fn pyth_price_range_spans_the_confidence() {
    let feed = pyth(12345678, 1234, -5);
    assert_eq!(
        feed.get_price_range(),
        Ok((
            FixedPoint::from_bits(34742630664701850),
            FixedPoint::from_bits(34757357885843312)
        ))
    );
}

#[test]
fn pyth_range_lies_around_the_price() {
    let cases: Vec<(i64, u64, i32)> = vec![
        (1, 0, 0),
        (-5, 3, 2),
        (100_000_000, 999, -8),
        (i64::MAX, u64::MAX, -23),
        (i64::MIN, 1, -10),
        (0, 0, 23),
    ];
    for (price, conf, expo) in cases {
        let feed = pyth(price, conf, expo);
        let base = feed.get_price().unwrap();
        let (low, high) = feed.get_price_range().unwrap();
        assert!(low.le(&base), "low above the price");
        assert!(base.le(&high), "high below the price");
    }
}

#[test]
fn pyth_exponent_out_of_bounds_is_refused() {
    assert_eq!(pyth(1, 1, 24).get_price(), Err(Error::UnableToParsePythOracle));
    assert_eq!(pyth(1, 1, -24).get_price(), Err(Error::UnableToParsePythOracle));
    assert_eq!(pyth(1, 1, i32::MIN).get_price(), Err(Error::UnableToParsePythOracle));
    assert_eq!(pyth(1, 1, 24).get_confidence_interval(), Err(Error::UnableToParsePythOracle));
    assert_eq!(pyth(1, 1, 24).get_price_range(), Err(Error::UnableToParsePythOracle));
}

#[test]
fn pyth_price_out_of_range_is_refused() {
    assert_eq!(pyth(i64::MAX, 0, 23).get_price(), Err(Error::UnableToParsePythOracle));
    assert_eq!(
        pyth(1, u64::MAX, 5).get_confidence_interval(),
        Err(Error::UnableToParsePythOracle)
    );
}

#[test]
fn components_scale_up_and_down() {
    let three = FixedPoint::from_bits(3 * ONE);
    assert_eq!(pyth_price_components_to_i80f48(three, 2), Ok(FixedPoint::from_bits(300 * ONE)));
    assert_eq!(
        pyth_price_components_to_i80f48(three, -1),
        Ok(FixedPoint::from_bits(3 * ONE / 10))
    );
    assert_eq!(
        pyth_price_components_to_i80f48(FixedPoint::from_bits(-3 * ONE), -1),
        Ok(FixedPoint::from_bits(-(3 * ONE / 10)))
    );
    assert_eq!(pyth_price_components_to_i80f48(three, 0), Ok(three));
}

#[test]
fn normalize_then_denormalize_is_exact_for_exponents_that_are_not_negative() {
    let exponents: Vec<i32> = vec![0, 1, 5, 18];
    for e in exponents {
        let v = normalize(7, e).unwrap();
        let w = denormalize(v, e).unwrap();
        assert_eq!(w.to_bits(), 7 * ONE);
    }
}

#[test]
fn normalize_then_denormalize_stays_within_one_unit() {
    let v = normalize(12345678, -5).unwrap();
    let w = denormalize(v, -5).unwrap();
    assert_eq!(w.to_bits(), 3474999427527258100000);
    assert_eq!(w.to_bits() - 12345678 * ONE, -44768);
    let mantissas: Vec<i64> = vec![1, -1, 999_999_999_999, -123_456_789, i64::MAX, i64::MIN];
    for m in mantissas {
        let mut e: i32 = -14;
        while e <= 0 {
            let v = normalize(m, e).unwrap();
            let w = denormalize(v, e).unwrap();
            let lost: i128 = w.to_bits() - (m as i128) * ONE;
            assert!(-ONE < lost && lost < ONE);
            e += 1;
        }
    }
}

#[test]
fn normalize_then_denormalize_loses_more_below_the_resolution() {
    let v = normalize(1_000_000, -15).unwrap();
    assert_eq!(v.to_bits(), 281474);
    let w = denormalize(v, -15).unwrap();
    assert_eq!(w.to_bits() - 1_000_000 * ONE, -976710656000000);
}

#[test]
fn denormalize_refuses_exponents_out_of_bounds() {
    assert_eq!(denormalize(FixedPoint::one(), 24), Err(Error::UnableToParsePythOracle));
    assert_eq!(denormalize(FixedPoint::one(), i32::MIN), Err(Error::UnableToParsePythOracle));
    assert_eq!(normalize(1, -24), Err(Error::UnableToParsePythOracle));
}

#[test]
fn price_range_with_negative_confidence_is_inverted() {
    let price = FixedPoint::from_bits(10 * ONE);
    let confidence = FixedPoint::from_bits(-ONE);
    let (low, high) = price_range(price, confidence, Error::UnableToParseSwitchboardOracle).unwrap();
    assert_eq!(low.to_bits(), 11 * ONE);
    assert_eq!(high.to_bits(), 9 * ONE);
    assert!(high.lt(&price) && price.lt(&low));
}

#[test]
fn price_range_out_of_range_reports_the_given_error() {
    let r = price_range(
        FixedPoint::max_value(),
        FixedPoint::one(),
        Error::UnableToParseSwitchboardOracle,
    );
    assert_eq!(r, Err(Error::UnableToParseSwitchboardOracle));
    let r = price_range(
        FixedPoint::from_bits(i128::MIN),
        FixedPoint::one(),
        Error::UnableToParsePythOracle,
    );
    assert_eq!(r, Err(Error::UnableToParsePythOracle));
}

#[test]
fn decimal_within_the_scale_is_kept() {
    assert_eq!(fit_scale_switchboard_decimal(decimal(123, 20), 20), Some(decimal(123, 20)));
    assert_eq!(fit_scale_switchboard_decimal(decimal(123, 3), 20), Some(decimal(123, 3)));
}

#[test]
fn decimal_beyond_the_scale_is_cut() {
    assert_eq!(
        fit_scale_switchboard_decimal(decimal(1234567890123456789012345678, 25), 20),
        Some(decimal(12345678901234567890123, 20))
    );
    assert_eq!(fit_scale_switchboard_decimal(decimal(-199, 22), 20), Some(decimal(-1, 20)));
    assert_eq!(fit_scale_switchboard_decimal(decimal(199, 40), 20), Some(decimal(0, 20)));
    assert_eq!(fit_scale_switchboard_decimal(decimal(199, 41), 20), None);
}

#[test]
fn decimal_becomes_a_number() {
    assert_eq!(
        switchboard_decimal_to_i80f48(decimal(123456789, 6)),
        Some(FixedPoint::from_bits(34749996808547371))
    );
    assert_eq!(
        switchboard_decimal_to_i80f48(decimal(-123456789, 6)),
        Some(FixedPoint::from_bits(-34749996808547371))
    );
    assert_eq!(
        switchboard_decimal_to_i80f48(decimal(1234567890123456789012345678, 25)),
        Some(FixedPoint::from_bits(34749996812022371))
    );
    assert_eq!(switchboard_decimal_to_i80f48(decimal(5, 0)), Some(FixedPoint::from_bits(5 * ONE)));
}

#[test]
fn decimal_too_large_is_refused() {
    assert_eq!(switchboard_decimal_to_i80f48(decimal(1i128 << 79, 0)), None);
    assert_eq!(switchboard_decimal_to_i80f48(decimal(1, 41)), None);
}

#[test]
fn switchboard_price_needs_enough_answers() {
    let mut feed = switchboard(decimal(123456789, 6), decimal(1, 2));
    assert_eq!(feed.get_result(), Ok(decimal(123456789, 6)));
    assert_eq!(feed.get_price(), Ok(FixedPoint::from_bits(34749996808547371)));
    feed.latest_confirmed_round_num_success = 2;
    assert_eq!(feed.get_result(), Err(Error::UnableToParseSwitchboardOracle));
    assert_eq!(feed.get_price(), Err(Error::UnableToParseSwitchboardOracle));
    assert_eq!(feed.get_price_range(), Err(Error::UnableToParseSwitchboardOracle));
    feed.resolution_mode = AggregatorResolutionMode::ModeSlidingResolution;
    assert_eq!(feed.get_result(), Ok(decimal(123456789, 6)));
    assert_eq!(feed.get_price(), Ok(FixedPoint::from_bits(34749996808547371)));
}

#[test]
fn switchboard_confidence_is_the_widened_deviation() {
    let feed = switchboard(decimal(100, 0), decimal(1, 0));
    assert_eq!(feed.get_confidence_interval(), Ok(FixedPoint::from_bits(596726950626591)));
    assert_eq!(
        feed.get_price_range(),
        Ok((
            FixedPoint::from_bits(100 * ONE - 596726950626591),
            FixedPoint::from_bits(100 * ONE + 596726950626591)
        ))
    );
}

#[test]
fn switchboard_negative_deviation_inverts_the_range() {
    let feed = switchboard(decimal(100, 0), decimal(-1, 0));
    let confidence = feed.get_confidence_interval().unwrap();
    assert!(confidence.lt(&FixedPoint::zero()));
    let base = feed.get_price().unwrap();
    let (low, high) = feed.get_price_range().unwrap();
    assert!(high.lt(&base) && base.lt(&low));
}

#[test]
fn either_feed_answers_as_its_own_kind() {
    let p = pyth(12345678, 1234, -5);
    let s = switchboard(decimal(100, 0), decimal(1, 0));
    assert_eq!(OracleFeed::Pyth(p).get_price(), p.get_price());
    assert_eq!(OracleFeed::Pyth(p).get_confidence_interval(), p.get_confidence_interval());
    assert_eq!(OracleFeed::Pyth(p).get_price_range(), p.get_price_range());
    assert_eq!(OracleFeed::Switchboard(s).get_price(), s.get_price());
    assert_eq!(OracleFeed::Switchboard(s).get_price_range(), s.get_price_range());
}

#[test]
fn a_feed_tells_when_it_was_updated() {
    let p = pyth(1, 1, 0);
    let s = switchboard(decimal(100, 0), decimal(1, 0));
    assert_eq!(OracleFeed::Pyth(p).updated_at(), UpdatedAt::Slot(7));
    assert_eq!(OracleFeed::Switchboard(s).updated_at(), UpdatedAt::Timestamp(1));
}
