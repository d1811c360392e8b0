//! Price feeds of two oracle formats, brought to one fixed-point form.
//!
//! A Pyth feed reports a mantissa and a power of ten; a Switchboard feed
//! reports a decimal with a scale, together with the data of its latest
//! confirmed round. Both give a price, a confidence interval and the range
//! that the two span.
use crate::error::Error;
use crate::fixed_lemmas::{
    lemma_div_by_whole, lemma_mul_by_whole, lemma_quotient_of_multiple,
    lemma_quotient_toward_zero_bounds,
};
use crate::fixed_point::{
    checked, exp10, fits, lemma_pow10_increases, lemma_pow10_values, mul_checked, pow10,
    quotient_toward_zero, scale, FixedPoint, MAX_EXP_10, MAX_EXP_10_FIXED,
};
use vstd::prelude::*;

verus! {

/// The largest scale that a Switchboard decimal keeps when it is converted.
pub const MAX_SCALE: u32 = 20;

/// The value `value * 10^exponent`, by its bits, rounded toward zero.
pub open spec fn scaled(value: int, exponent: int) -> int {
    if exponent >= 0 {
        value * pow10(exponent as nat)
    } else {
        quotient_toward_zero(value, pow10((-exponent) as nat))
    }
}

/// `scaled`, for the exponents that are supported and the results that fit.
pub open spec fn scale_checked(value: int, exponent: int) -> Option<int> {
    if -(MAX_EXP_10_FIXED as int) <= exponent <= MAX_EXP_10_FIXED as int {
        checked(scaled(value, exponent))
    } else {
        None
    }
}

/// The two ends of the range that a price and a confidence span, where both
/// are known and both ends fit.
pub open spec fn range_bits(price: Option<int>, confidence: Option<int>) -> Option<(int, int)> {
    match (price, confidence) {
        (Some(p), Some(c)) => if fits(p - c) && fits(p + c) {
            Some((p - c, p + c))
        } else {
            None
        },
        _ => None,
    }
}

/// A confidence widened by the fixed multiple.
pub open spec fn widened(confidence: Option<int>) -> Option<int> {
    match confidence {
        Some(c) => mul_checked(c, crate::fixed_point::CONF_INTERVAL_MULTIPLE_BITS as int),
        None => None,
    }
}

/// Multiplies `price` by `10^exponent`, for exponents from -23 to 23. A
/// product is exact; a quotient is rounded toward zero.
pub fn pyth_price_components_to_i80f48(price: FixedPoint, exponent: i32) -> (r: Result<
    FixedPoint,
    Error,
>)
    ensures
        match r {
            Ok(v) => scale_checked(price@, exponent as int) == Some(v@),
            Err(e) => scale_checked(price@, exponent as int) is None && e
                == Error::UnableToParsePythOracle,
        },
{
    if exponent < -23 || exponent > 23 {
        return Err(Error::UnableToParsePythOracle);
    }
    if exponent == 0 {
        assert(pow10(0) == 1);
        assert(price@ * 1 == price@);
        Ok(price)
    } else if exponent < 0 {
        let k: usize = (-exponent) as usize;
        let factor = FixedPoint::exp10_fixed(k);
        proof {
            lemma_div_by_whole(price@, pow10(k as nat));
        }
        match price.checked_div(factor) {
            Some(v) => Ok(v),
            None => Err(Error::UnableToParsePythOracle),
        }
    } else {
        let k: usize = exponent as usize;
        let factor = FixedPoint::exp10_fixed(k);
        proof {
            lemma_mul_by_whole(price@, pow10(k as nat));
        }
        match price.checked_mul(factor) {
            Some(v) => Ok(v),
            None => Err(Error::UnableToParsePythOracle),
        }
    }
}

/// The number `mantissa * 10^exponent`.
pub fn normalize(mantissa: i64, exponent: i32) -> (r: Result<FixedPoint, Error>)
    ensures
        match r {
            Ok(v) => scale_checked(mantissa * scale(), exponent as int) == Some(v@),
            Err(e) => scale_checked(mantissa * scale(), exponent as int) is None && e
                == Error::UnableToParsePythOracle,
        },
{
    pyth_price_components_to_i80f48(FixedPoint::from_i64(mantissa), exponent)
}

/// The mantissa that `value` has at `exponent`: the number
/// `value / 10^exponent`.
pub fn denormalize(value: FixedPoint, exponent: i32) -> (r: Result<FixedPoint, Error>)
    ensures
        match r {
            Ok(v) => scale_checked(value@, -(exponent as int)) == Some(v@),
            Err(e) => scale_checked(value@, -(exponent as int)) is None && e
                == Error::UnableToParsePythOracle,
        },
{
    if exponent < -23 || exponent > 23 {
        return Err(Error::UnableToParsePythOracle);
    }
    pyth_price_components_to_i80f48(value, -exponent)
}

/// Bringing a mantissa to a number and back loses nothing for an exponent
/// that is not negative, and for a negative one less than what one step of
/// the number is worth once it is scaled back: `10^-exponent` steps of the
/// mantissa. For the exponents from -14 on that is less than one whole unit
/// of the mantissa.
pub proof fn lemma_normalize_denormalize(mantissa: int, exponent: int, v: int, w: int)
    requires
        -23 <= exponent <= 23,
        scale_checked(mantissa * scale(), exponent) == Some(v),
        scale_checked(v, -exponent) == Some(w),
    ensures
        exponent >= 0 ==> w == mantissa * scale(),
        exponent < 0 ==> -pow10((-exponent) as nat) < w - mantissa * scale() < pow10(
            (-exponent) as nat,
        ),
        -14 <= exponent ==> -scale() < w - mantissa * scale() < scale(),
{
    let m = mantissa * scale();
    lemma_pow10_values();
    if exponent >= 0 {
        let p = pow10(exponent as nat);
        lemma_pow10_increases(0, exponent as nat);
        if exponent == 0 {
            assert(m * 1 == m);
            assert(v * 1 == v);
        } else {
            lemma_quotient_of_multiple(m, p);
        }
    } else {
        let p = pow10((-exponent) as nat);
        lemma_pow10_increases(0, (-exponent) as nat);
        lemma_quotient_toward_zero_bounds(m, p);
        if -14 <= exponent {
            lemma_pow10_increases((-exponent) as nat, 14);
        }
    }
}

/// A price as Pyth reports it: `price * 10^expo`, within `conf * 10^expo`.
#[derive(Clone, Copy, Debug, PartialEq, Eq, Structural)]
pub struct PythPrice {
    pub price: i64,
    pub conf: u64,
    pub expo: i32,
    pub publish_time: i64,
}

/// The latest price of one Pyth oracle.
#[derive(Clone, Copy, Debug, PartialEq, Eq, Structural)]
pub struct PythPriceFeed {
    pub last_update_slot: u64,
    pub price: PythPrice,
}

/// A decimal as Switchboard reports it: `mantissa / 10^scale`.
#[derive(Clone, Copy, Debug, PartialEq, Eq, Structural)]
pub struct SwitchboardDecimal {
    pub mantissa: i128,
    pub scale: u32,
}

impl SwitchboardDecimal {
    /// The decimal `mantissa / 10^scale`.
    pub fn new(mantissa: i128, scale: u32) -> (r: SwitchboardDecimal)
        ensures
            r == (SwitchboardDecimal { mantissa, scale }),
    {
        SwitchboardDecimal { mantissa, scale }
    }
}

/// How a Switchboard aggregator settles on a result.
#[derive(Clone, Copy, Debug, PartialEq, Eq, Structural)]
pub enum AggregatorResolutionMode {
    /// A round is confirmed once enough oracles have answered.
    ModeRoundResolution,
    /// The result slides with each answer; no count of answers is asked for.
    ModeSlidingResolution,
}

/// The latest confirmed round of one Switchboard aggregator.
#[derive(Clone, Copy, Debug, PartialEq, Eq, Structural)]
pub struct SwitchboardPriceFeed {
    pub last_update_ts: i64,
    pub resolution_mode: AggregatorResolutionMode,
    pub latest_confirmed_round_result: SwitchboardDecimal,
    pub latest_confirmed_round_num_success: u32,
    pub latest_confirmed_round_std_deviation: SwitchboardDecimal,
    pub min_oracle_results: u32,
}

/// The decimal brought down to `scale` digits after the point, the digits
/// beyond them cut off. Nothing where more than twenty digits would have to
/// go.
pub open spec fn fit_scale(decimal: SwitchboardDecimal, scale: u32) -> Option<SwitchboardDecimal> {
    if decimal.scale <= scale {
        Some(decimal)
    } else if decimal.scale - scale > MAX_EXP_10 {
        None
    } else {
        Some(
            SwitchboardDecimal {
                mantissa: quotient_toward_zero(
                    decimal.mantissa as int,
                    pow10((decimal.scale - scale) as nat),
                ) as i128,
                scale,
            },
        )
    }
}

/// The bits of the number that a decimal stands for, once it is cut to
/// twenty digits after the point: `mantissa * 2^48 / 10^scale`, rounded
/// toward zero.
pub open spec fn decimal_bits(decimal: SwitchboardDecimal) -> Option<int> {
    match fit_scale(decimal, MAX_SCALE) {
        Some(d) => if fits(d.mantissa * scale()) {
            Some(quotient_toward_zero(d.mantissa * scale(), pow10(d.scale as nat)))
        } else {
            None
        },
        None => None,
    }
}

/// The number that a decimal of at most twenty digits after the point
/// stands for lies within one step of the decimal's own value, on the side
/// of zero: the bits times `10^scale` are less than `10^scale` away from
/// the mantissa times `2^48`.
pub proof fn lemma_decimal_within_one_step(decimal: SwitchboardDecimal, v: int)
    requires
        decimal.scale <= MAX_SCALE,
        decimal_bits(decimal) == Some(v),
    ensures
        decimal.mantissa >= 0 ==> decimal.mantissa * scale() - pow10(decimal.scale as nat) < v
            * pow10(decimal.scale as nat) <= decimal.mantissa * scale(),
        decimal.mantissa <= 0 ==> decimal.mantissa * scale() <= v * pow10(decimal.scale as nat)
            < decimal.mantissa * scale() + pow10(decimal.scale as nat),
{
    let p = pow10(decimal.scale as nat);
    lemma_pow10_increases(0, decimal.scale as nat);
    lemma_quotient_toward_zero_bounds(decimal.mantissa * scale(), p);
    assert(decimal.mantissa >= 0 ==> decimal.mantissa * scale() >= 0) by (nonlinear_arith)
        requires
            scale() > 0,
    ;
    assert(decimal.mantissa <= 0 ==> decimal.mantissa * scale() <= 0) by (nonlinear_arith)
        requires
            scale() > 0,
    ;
}

/// Cuts a decimal down to `scale` digits after the point.
pub fn fit_scale_switchboard_decimal(decimal: SwitchboardDecimal, scale: u32) -> (r: Option<
    SwitchboardDecimal,
>)
    ensures
        r == fit_scale(decimal, scale),
{
    if decimal.scale <= scale {
        return Some(decimal);
    }
    let scale_diff: u32 = decimal.scale - scale;
    if scale_diff > 20 {
        return None;
    }
    let divisor: i128 = exp10(scale_diff as usize);
    let mantissa: i128 = decimal.mantissa / divisor;
    proof {
        lemma_quotient_toward_zero_bounds(decimal.mantissa as int, divisor as int);
    }
    Some(SwitchboardDecimal { mantissa, scale })
}

/// The number that a decimal stands for.
pub fn switchboard_decimal_to_i80f48(decimal: SwitchboardDecimal) -> (r: Option<FixedPoint>)
    ensures
        match r {
            Some(v) => decimal_bits(decimal) == Some(v@),
            None => decimal_bits(decimal) is None,
        },
{
    match fit_scale_switchboard_decimal(decimal, MAX_SCALE) {
        None => None,
        Some(fitted) => {
            match FixedPoint::checked_from_i128(fitted.mantissa) {
                None => None,
                Some(whole) => {
                    let factor = FixedPoint::exp10_fixed(fitted.scale as usize);
                    proof {
                        let p = pow10(fitted.scale as nat);
                        lemma_pow10_increases(0, fitted.scale as nat);
                        lemma_div_by_whole(whole@, p);
                        lemma_quotient_toward_zero_bounds(whole@, p);
                        assert(fits(quotient_toward_zero(whole@, p))) by (nonlinear_arith)
                            requires
                                p >= 1,
                                whole@ >= 0 ==> whole@ - p < quotient_toward_zero(whole@, p) * p
                                    <= whole@,
                                whole@ <= 0 ==> whole@ <= quotient_toward_zero(whole@, p) * p
                                    < whole@ + p,
                                whole@ >= 0 ==> quotient_toward_zero(whole@, p) >= 0,
                                whole@ <= 0 ==> quotient_toward_zero(whole@, p) <= 0,
                                fits(whole@),
                        ;
                    }
                    whole.checked_div(factor)
                },
            }
        },
    }
}

/// What a price feed can be asked.
pub trait PriceData {
    /// The bits of the price, where the feed gives one.
    spec fn price_bits(&self) -> Option<int>;

    /// The bits of the widened confidence, where the feed gives one.
    spec fn confidence_bits(&self) -> Option<int>;

    /// The error that the feed reports where it gives no value.
    spec fn parse_error(&self) -> Error;

    /// The price.
    fn get_price(&self) -> (r: Result<FixedPoint, Error>)
        ensures
            match r {
                Ok(v) => self.price_bits() == Some(v@),
                Err(e) => self.price_bits() is None && e == self.parse_error(),
            },
    ;

    /// The confidence interval: the reported uncertainty, widened.
    fn get_confidence_interval(&self) -> (r: Result<FixedPoint, Error>)
        ensures
            match r {
                Ok(v) => self.confidence_bits() == Some(v@),
                Err(e) => self.confidence_bits() is None && e == self.parse_error(),
            },
    ;

    /// The price less the confidence and the price plus the confidence.
    fn get_price_range(&self) -> (r: Result<(FixedPoint, FixedPoint), Error>)
        ensures
            match r {
                Ok(range) => range_bits(self.price_bits(), self.confidence_bits()) == Some(
                    (range.0@, range.1@),
                ),
                Err(e) => range_bits(self.price_bits(), self.confidence_bits()) is None && e
                    == self.parse_error(),
            },
    ;
}

/// The range that a price and a confidence span, or `error` where an end
/// does not fit.
pub fn price_range(price: FixedPoint, confidence: FixedPoint, error: Error) -> (r: Result<
    (FixedPoint, FixedPoint),
    Error,
>)
    ensures
        match r {
            Ok(range) => range_bits(Some(price@), Some(confidence@)) == Some((range.0@, range.1@)),
            Err(e) => range_bits(Some(price@), Some(confidence@)) is None && e == error,
        },
{
    match price.checked_sub(confidence) {
        None => Err(error),
        Some(lowest) => match price.checked_add(confidence) {
            None => Err(error),
            Some(highest) => Ok((lowest, highest)),
        },
    }
}

/// A range lies around its price exactly when the confidence is not
/// negative; with a negative confidence its ends are the wrong way round.
pub proof fn lemma_price_range_order(price: int, confidence: int, low: int, high: int)
    requires
        range_bits(Some(price), Some(confidence)) == Some((low, high)),
    ensures
        low == price - confidence,
        high == price + confidence,
        confidence >= 0 ==> low <= price <= high,
        confidence < 0 ==> high < price < low,
{
}

impl PriceData for PythPriceFeed {
    open spec fn price_bits(&self) -> Option<int> {
        scale_checked(self.price.price * scale(), self.price.expo as int)
    }

    open spec fn confidence_bits(&self) -> Option<int> {
        widened(scale_checked(self.price.conf * scale(), self.price.expo as int))
    }

    open spec fn parse_error(&self) -> Error {
        Error::UnableToParsePythOracle
    }

    fn get_price(&self) -> (r: Result<FixedPoint, Error>) {
        pyth_price_components_to_i80f48(FixedPoint::from_i64(self.price.price), self.price.expo)
    }

    fn get_confidence_interval(&self) -> (r: Result<FixedPoint, Error>) {
        match pyth_price_components_to_i80f48(
            FixedPoint::from_u64(self.price.conf),
            self.price.expo,
        ) {
            Err(e) => Err(e),
            Ok(confidence) => match confidence.checked_mul(FixedPoint::conf_interval_multiple()) {
                Some(v) => Ok(v),
                None => Err(Error::UnableToParsePythOracle),
            },
        }
    }

    fn get_price_range(&self) -> (r: Result<(FixedPoint, FixedPoint), Error>) {
        match self.get_price() {
            Err(e) => Err(e),
            Ok(base_price) => match self.get_confidence_interval() {
                Err(e) => Err(e),
                Ok(confidence) => price_range(
                    base_price,
                    confidence,
                    Error::UnableToParsePythOracle,
                ),
            },
        }
    }
}

/// The confidence of a Pyth feed is never negative, so its range lies around
/// its price.
pub proof fn lemma_pyth_range_around_price(feed: PythPriceFeed, low: int, high: int)
    requires
        range_bits(feed.price_bits(), feed.confidence_bits()) == Some((low, high)),
    ensures
        feed.confidence_bits().unwrap() >= 0,
        low <= feed.price_bits().unwrap() <= high,
{
    let c = feed.price.conf * scale();
    let e = feed.price.expo as int;
    let k = crate::fixed_point::CONF_INTERVAL_MULTIPLE_BITS as int;
    let s = scale_checked(c, e).unwrap();
    if e >= 0 {
        lemma_pow10_increases(0, e as nat);
        assert(c * pow10(e as nat) >= 0) by (nonlinear_arith)
            requires
                c >= 0,
                pow10(e as nat) >= 1,
        ;
    } else {
        lemma_pow10_increases(0, (-e) as nat);
        lemma_quotient_toward_zero_bounds(c, pow10((-e) as nat));
    }
    assert((s * k) / scale() >= 0) by (nonlinear_arith)
        requires
            s >= 0,
            k >= 0,
            scale() > 0,
    ;
}

impl SwitchboardPriceFeed {
    /// The result that counts: that of the latest confirmed round, unless
    /// the aggregator resolves by rounds and fewer oracles answered than it
    /// asks for.
    pub open spec fn result(&self) -> Option<SwitchboardDecimal> {
        if self.resolution_mode == AggregatorResolutionMode::ModeSlidingResolution
            || self.min_oracle_results <= self.latest_confirmed_round_num_success {
            Some(self.latest_confirmed_round_result)
        } else {
            None
        }
    }

    /// The result that counts, or an error where too few oracles answered.
    pub fn get_result(&self) -> (r: Result<SwitchboardDecimal, Error>)
        ensures
            match r {
                Ok(d) => self.result() == Some(d),
                Err(e) => self.result() is None && e == Error::UnableToParseSwitchboardOracle,
            },
    {
        match self.resolution_mode {
            AggregatorResolutionMode::ModeSlidingResolution => {
                return Ok(self.latest_confirmed_round_result);
            },
            AggregatorResolutionMode::ModeRoundResolution => {},
        }
        if self.min_oracle_results > self.latest_confirmed_round_num_success {
            return Err(Error::UnableToParseSwitchboardOracle);
        }
        Ok(self.latest_confirmed_round_result)
    }
}

impl PriceData for SwitchboardPriceFeed {
    open spec fn price_bits(&self) -> Option<int> {
        match self.result() {
            Some(d) => decimal_bits(d),
            None => None,
        }
    }

    open spec fn confidence_bits(&self) -> Option<int> {
        widened(decimal_bits(self.latest_confirmed_round_std_deviation))
    }

    open spec fn parse_error(&self) -> Error {
        Error::UnableToParseSwitchboardOracle
    }

    fn get_price(&self) -> (r: Result<FixedPoint, Error>) {
        match self.get_result() {
            Err(e) => Err(e),
            Ok(decimal) => match switchboard_decimal_to_i80f48(decimal) {
                Some(v) => Ok(v),
                None => Err(Error::UnableToParseSwitchboardOracle),
            },
        }
    }

    fn get_confidence_interval(&self) -> (r: Result<FixedPoint, Error>) {
        match switchboard_decimal_to_i80f48(self.latest_confirmed_round_std_deviation) {
            None => Err(Error::UnableToParseSwitchboardOracle),
            Some(deviation) => match deviation.checked_mul(FixedPoint::conf_interval_multiple()) {
                Some(v) => Ok(v),
                None => Err(Error::UnableToParseSwitchboardOracle),
            },
        }
    }

    fn get_price_range(&self) -> (r: Result<(FixedPoint, FixedPoint), Error>) {
        match self.get_price() {
            Err(e) => Err(e),
            Ok(base_price) => match self.get_confidence_interval() {
                Err(e) => Err(e),
                Ok(confidence) => price_range(
                    base_price,
                    confidence,
                    Error::UnableToParseSwitchboardOracle,
                ),
            },
        }
    }
}

/// The latest price of one oracle, of either format.
#[derive(Clone, Copy, Debug, PartialEq, Eq, Structural)]
pub enum OracleFeed {
    Pyth(PythPriceFeed),
    Switchboard(SwitchboardPriceFeed),
}

/// When a feed was last updated, on the clock of its format.
#[derive(Clone, Copy, Debug, PartialEq, Eq, Structural)]
pub enum UpdatedAt {
    /// The slot in which a Pyth feed was seen.
    Slot(u64),
    /// The time, in seconds, at which a Switchboard round opened.
    Timestamp(i64),
}

impl OracleFeed {
    /// When the feed was last updated.
    pub fn updated_at(&self) -> (r: UpdatedAt)
        ensures
            r == (match *self {
                OracleFeed::Pyth(feed) => UpdatedAt::Slot(feed.last_update_slot),
                OracleFeed::Switchboard(feed) => UpdatedAt::Timestamp(feed.last_update_ts),
            }),
    {
        match self {
            OracleFeed::Pyth(feed) => UpdatedAt::Slot(feed.last_update_slot),
            OracleFeed::Switchboard(feed) => UpdatedAt::Timestamp(feed.last_update_ts),
        }
    }
}

impl PriceData for OracleFeed {
    open spec fn price_bits(&self) -> Option<int> {
        match self {
            OracleFeed::Pyth(feed) => feed.price_bits(),
            OracleFeed::Switchboard(feed) => feed.price_bits(),
        }
    }

    open spec fn confidence_bits(&self) -> Option<int> {
        match self {
            OracleFeed::Pyth(feed) => feed.confidence_bits(),
            OracleFeed::Switchboard(feed) => feed.confidence_bits(),
        }
    }

    open spec fn parse_error(&self) -> Error {
        match self {
            OracleFeed::Pyth(feed) => feed.parse_error(),
            OracleFeed::Switchboard(feed) => feed.parse_error(),
        }
    }

    fn get_price(&self) -> (r: Result<FixedPoint, Error>) {
        match self {
            OracleFeed::Pyth(feed) => feed.get_price(),
            OracleFeed::Switchboard(feed) => feed.get_price(),
        }
    }

    fn get_confidence_interval(&self) -> (r: Result<FixedPoint, Error>) {
        match self {
            OracleFeed::Pyth(feed) => feed.get_confidence_interval(),
            OracleFeed::Switchboard(feed) => feed.get_confidence_interval(),
        }
    }

    fn get_price_range(&self) -> (r: Result<(FixedPoint, FixedPoint), Error>) {
        match self {
            OracleFeed::Pyth(feed) => feed.get_price_range(),
            OracleFeed::Switchboard(feed) => feed.get_price_range(),
        }
    }
}

} // verus!
