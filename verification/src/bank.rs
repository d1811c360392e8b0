//! A lending bank as the engine sees it, with its deposit cap and its
//! interest curve.
use crate::address::Address;
use crate::error::Error;
use crate::fixed_lemmas::{
    lemma_floor_bounds, lemma_mul_by_whole, lemma_quotient_of_multiple,
    lemma_quotient_toward_zero_bounds,
};
use crate::fixed_point::{
    add_checked, checked, div_checked, fits, lemma_pow10_increases, mul_checked, pow10,
    quotient_toward_zero, scale, sub_checked, FixedPoint, MAX_EXP_10_FIXED,
};
use crate::oracle_cache::OracleSetup;
use vstd::prelude::*;

verus! {

/// A bank as it is read from the chain: every fixed-point number by its
/// bits.
#[derive(Clone, Copy, Debug)]
pub struct OnChainBank {
    pub mint: Address,
    pub mint_decimals: u8,
    pub liquidity_vault: Address,
    pub asset_share_value: i128,
    pub liability_share_value: i128,
    pub total_asset_shares: i128,
    pub total_liability_shares: i128,
    pub asset_weight_init: i128,
    pub liability_weight_init: i128,
    pub total_asset_value_init_limit: u64,
    pub oracle_setup: OracleSetup,
    /// The oracles of the bank; the first one prices it.
    pub oracle_keys: [Address; 5],
    pub optimal_utilization_rate: i128,
    pub plateau_interest_rate: i128,
    pub max_interest_rate: i128,
}

/// One lending bank at the time of its last refresh.
#[derive(Clone, Copy, Debug)]
pub struct MarginfiBank {
    pub mint: Address,
    pub mint_decimals: u8,
    pub total_asset_value_init_limit: u64,
    pub oracle_setup: OracleSetup,
    pub oracle_address: Address,
    pub asset_weight_init: FixedPoint,
    pub liability_weight_init: FixedPoint,
    pub asset_share_value: FixedPoint,
    pub liability_share_value: FixedPoint,
    pub total_asset_shares: FixedPoint,
    pub total_liability_shares: FixedPoint,
    pub optimal_utilization_rate: FixedPoint,
    pub plateau_interest_rate: FixedPoint,
    pub max_interest_rate: FixedPoint,
}

/// The bits of the factor that turns whole tokens into the smallest units of
/// a mint with `decimals` decimals, where that factor is a number.
pub open spec fn token_factor(decimals: u8) -> Option<int> {
    if decimals <= MAX_EXP_10_FIXED {
        Some(pow10(decimals as nat) * scale())
    } else {
        None
    }
}

/// The bits of a bank's cap in the smallest units of its mint.
pub open spec fn cap_in_units(cap: u64, decimals: u8) -> Option<int> {
    match token_factor(decimals) {
        Some(factor) => checked(cap * factor),
        None => None,
    }
}

/// The rate on the rising part of the curve below the optimal utilization:
/// the share of the optimal utilization that is reached, times the plateau
/// rate.
pub open spec fn rate_below(utilization: int, optimal: int, plateau: int) -> Option<int> {
    match div_checked(utilization, optimal) {
        Some(ratio) => mul_checked(ratio, plateau),
        None => None,
    }
}

/// The rate on the part of the curve above the optimal utilization: the
/// plateau rate, plus the share of the way from the optimal utilization to
/// full utilization, times the way from the plateau rate to the highest
/// rate.
pub open spec fn rate_above(utilization: int, optimal: int, plateau: int, max: int) -> Option<
    int,
> {
    match (
        sub_checked(utilization, optimal),
        sub_checked(scale(), optimal),
        sub_checked(max, plateau),
    ) {
        (Some(over), Some(room), Some(spread)) => match div_checked(over, room) {
            Some(ratio) => match mul_checked(ratio, spread) {
                Some(rise) => add_checked(rise, plateau),
                None => None,
            },
            None => None,
        },
        _ => None,
    }
}

/// The borrow rate at a utilization.
pub open spec fn rate_at(utilization: int, optimal: int, plateau: int, max: int) -> Option<int> {
    if utilization <= optimal {
        rate_below(utilization, optimal, plateau)
    } else {
        rate_above(utilization, optimal, plateau, max)
    }
}

impl MarginfiBank {
    /// The bits of what is deposited in the bank, in the smallest units of
    /// its mint.
    pub open spec fn deposited(&self) -> Option<int> {
        mul_checked(self.asset_share_value@, self.total_asset_shares@)
    }

    /// The bits of the amount that may still be deposited out of
    /// `requested`: all of it where the bank has no cap, else what is left
    /// under the cap, and never less than nothing is left.
    pub open spec fn max_deposit(&self, requested: int) -> Option<int> {
        if self.total_asset_value_init_limit == 0 {
            Some(requested)
        } else {
            match (
                cap_in_units(self.total_asset_value_init_limit, self.mint_decimals),
                self.deposited(),
            ) {
                (Some(cap), Some(deposited)) => {
                    let room = if cap > deposited {
                        cap - deposited
                    } else {
                        0
                    };
                    Some(if requested <= room { requested } else { room })
                },
                _ => None,
            }
        }
    }

    /// The bits of the share of the deposits that is lent out.
    pub open spec fn utilization(&self) -> Option<int> {
        div_checked(self.total_liability_shares@, self.total_asset_shares@)
    }

    /// The bits of the borrow rate: zero where nothing is lent out, else the
    /// rate of the curve at the bank's utilization.
    pub open spec fn borrow_rate(&self) -> Option<int> {
        if self.total_liability_shares@ == 0 {
            Some(0)
        } else {
            match self.utilization() {
                Some(utilization) => rate_at(
                    utilization,
                    self.optimal_utilization_rate@,
                    self.plateau_interest_rate@,
                    self.max_interest_rate@,
                ),
                None => None,
            }
        }
    }

    /// The factor that turns whole tokens into the smallest units of the
    /// bank's mint.
    pub fn scaling_factor(&self) -> (r: Result<FixedPoint, Error>)
        ensures
            match r {
                Ok(v) => token_factor(self.mint_decimals) == Some(v@),
                Err(e) => token_factor(self.mint_decimals) is None && e == Error::MathOverflow,
            },
    {
        if self.mint_decimals > 23 {
            Err(Error::MathOverflow)
        } else {
            Ok(FixedPoint::exp10_fixed(self.mint_decimals as usize))
        }
    }

    /// How much of `deposit_amount` the bank takes. A bank without a cap
    /// takes all of it. A bank with a cap takes what is left under the cap,
    /// at most `deposit_amount` and never more than that.
    pub fn get_max_deposit_amount(&self, deposit_amount: FixedPoint) -> (r: Result<
        FixedPoint,
        Error,
    >)
        ensures
            match r {
                Ok(v) => self.max_deposit(deposit_amount@) == Some(v@) && v@ <= deposit_amount@,
                Err(e) => self.max_deposit(deposit_amount@) is None && e == Error::MathOverflow,
            },
    {
        if self.total_asset_value_init_limit == 0 {
            return Ok(deposit_amount);
        }
        let factor = match self.scaling_factor() {
            Ok(f) => f,
            Err(e) => {
                return Err(e);
            },
        };
        let cap = FixedPoint::from_u64(self.total_asset_value_init_limit);
        proof {
            lemma_mul_by_whole(cap@, pow10(self.mint_decimals as nat));
            assert(cap@ * pow10(self.mint_decimals as nat) == self.total_asset_value_init_limit * (
            pow10(self.mint_decimals as nat) * scale())) by (nonlinear_arith)
                requires
                    cap@ == self.total_asset_value_init_limit * scale(),
            ;
        }
        let max_deposit_amount = match cap.checked_mul(factor) {
            Some(v) => v,
            None => {
                return Err(Error::MathOverflow);
            },
        };
        let total_deposit_amount = match self.asset_share_value.checked_mul(
            self.total_asset_shares,
        ) {
            Some(v) => v,
            None => {
                return Err(Error::MathOverflow);
            },
        };
        if max_deposit_amount.le(&total_deposit_amount) {
            return Ok(deposit_amount.min(FixedPoint::zero()));
        }
        match max_deposit_amount.checked_sub(total_deposit_amount) {
            Some(room) => Ok(deposit_amount.min(room)),
            None => Ok(deposit_amount),
        }
    }

    /// The rate at which the bank lends: zero where nothing is lent out;
    /// below the optimal utilization a rate that rises from zero to the
    /// plateau rate; above it a rate that rises from the plateau rate to the
    /// highest rate.
    pub fn get_borrow_rate(&self) -> (r: Result<FixedPoint, Error>)
        ensures
            match r {
                Ok(v) => self.borrow_rate() == Some(v@),
                Err(e) => self.borrow_rate() is None && e == Error::MathOverflow,
            },
    {
        if self.total_liability_shares.is_zero() {
            return Ok(FixedPoint::zero());
        }
        let current_utilization = match self.total_liability_shares.checked_div(
            self.total_asset_shares,
        ) {
            Some(v) => v,
            None => {
                return Err(Error::MathOverflow);
            },
        };
        if current_utilization.le(&self.optimal_utilization_rate) {
            let ratio = match current_utilization.checked_div(self.optimal_utilization_rate) {
                Some(v) => v,
                None => {
                    return Err(Error::MathOverflow);
                },
            };
            match ratio.checked_mul(self.plateau_interest_rate) {
                Some(v) => Ok(v),
                None => Err(Error::MathOverflow),
            }
        } else {
            let over = match current_utilization.checked_sub(self.optimal_utilization_rate) {
                Some(v) => v,
                None => {
                    return Err(Error::MathOverflow);
                },
            };
            let room = match FixedPoint::one().checked_sub(self.optimal_utilization_rate) {
                Some(v) => v,
                None => {
                    return Err(Error::MathOverflow);
                },
            };
            let spread = match self.max_interest_rate.checked_sub(self.plateau_interest_rate) {
                Some(v) => v,
                None => {
                    return Err(Error::MathOverflow);
                },
            };
            let ratio = match over.checked_div(room) {
                Some(v) => v,
                None => {
                    return Err(Error::MathOverflow);
                },
            };
            let rise = match ratio.checked_mul(spread) {
                Some(v) => v,
                None => {
                    return Err(Error::MathOverflow);
                },
            };
            match rise.checked_add(self.plateau_interest_rate) {
                Some(v) => Ok(v),
                None => Err(Error::MathOverflow),
            }
        }
    }
}

impl Default for MarginfiBank {
    fn default() -> (r: MarginfiBank)
        ensures
            r.oracle_setup == OracleSetup::PythEma,
            r.mint_decimals == 0,
            r.total_asset_value_init_limit == 0,
            r.asset_weight_init@ == 0,
            r.liability_weight_init@ == 0,
            r.asset_share_value@ == 0,
            r.liability_share_value@ == 0,
            r.total_asset_shares@ == 0,
            r.total_liability_shares@ == 0,
            r.optimal_utilization_rate@ == 0,
            r.plateau_interest_rate@ == 0,
            r.max_interest_rate@ == 0,
    {
        MarginfiBank {
            oracle_setup: OracleSetup::PythEma,
            mint: Address::zero(),
            mint_decimals: 0,
            total_asset_value_init_limit: 0,
            oracle_address: Address::zero(),
            asset_weight_init: FixedPoint::zero(),
            liability_weight_init: FixedPoint::zero(),
            asset_share_value: FixedPoint::zero(),
            liability_share_value: FixedPoint::zero(),
            total_asset_shares: FixedPoint::zero(),
            total_liability_shares: FixedPoint::zero(),
            optimal_utilization_rate: FixedPoint::zero(),
            plateau_interest_rate: FixedPoint::zero(),
            max_interest_rate: FixedPoint::zero(),
        }
    }
}

impl MarginfiBank {
    /// The bank that an on-chain record describes.
    pub open spec fn of(bank: OnChainBank) -> MarginfiBank {
        MarginfiBank {
            mint: bank.mint,
            mint_decimals: bank.mint_decimals,
            total_asset_value_init_limit: bank.total_asset_value_init_limit,
            oracle_setup: bank.oracle_setup,
            oracle_address: bank.oracle_keys[0],
            asset_weight_init: FixedPoint { bits: bank.asset_weight_init },
            liability_weight_init: FixedPoint { bits: bank.liability_weight_init },
            asset_share_value: FixedPoint { bits: bank.asset_share_value },
            liability_share_value: FixedPoint { bits: bank.liability_share_value },
            total_asset_shares: FixedPoint { bits: bank.total_asset_shares },
            total_liability_shares: FixedPoint { bits: bank.total_liability_shares },
            optimal_utilization_rate: FixedPoint { bits: bank.optimal_utilization_rate },
            plateau_interest_rate: FixedPoint { bits: bank.plateau_interest_rate },
            max_interest_rate: FixedPoint { bits: bank.max_interest_rate },
        }
    }

    /// Reads a bank from its on-chain record.
    pub fn from_on_chain(bank: OnChainBank) -> (r: MarginfiBank)
        ensures
            r == MarginfiBank::of(bank),
    {
        MarginfiBank {
            mint: bank.mint,
            mint_decimals: bank.mint_decimals,
            total_asset_value_init_limit: bank.total_asset_value_init_limit,
            oracle_setup: bank.oracle_setup,
            oracle_address: bank.oracle_keys[0],
            asset_weight_init: FixedPoint::from_bits(bank.asset_weight_init),
            liability_weight_init: FixedPoint::from_bits(bank.liability_weight_init),
            asset_share_value: FixedPoint::from_bits(bank.asset_share_value),
            liability_share_value: FixedPoint::from_bits(bank.liability_share_value),
            total_asset_shares: FixedPoint::from_bits(bank.total_asset_shares),
            total_liability_shares: FixedPoint::from_bits(bank.total_liability_shares),
            optimal_utilization_rate: FixedPoint::from_bits(bank.optimal_utilization_rate),
            plateau_interest_rate: FixedPoint::from_bits(bank.plateau_interest_rate),
            max_interest_rate: FixedPoint::from_bits(bank.max_interest_rate),
        }
    }
}

/// A bank never takes more than was asked for.
pub proof fn lemma_max_deposit_at_most_requested(bank: MarginfiBank, requested: int, allowed: int)
    requires
        bank.max_deposit(requested) == Some(allowed),
    ensures
        allowed <= requested,
{
}

/// Raising the cap of a capped bank never lowers what the bank takes.
pub proof fn lemma_max_deposit_grows_with_cap(
    low: MarginfiBank,
    high: MarginfiBank,
    requested: int,
    allowed_low: int,
    allowed_high: int,
)
    requires
        0 < low.total_asset_value_init_limit <= high.total_asset_value_init_limit,
        high == (MarginfiBank {
            total_asset_value_init_limit: high.total_asset_value_init_limit,
            ..low
        }),
        low.max_deposit(requested) == Some(allowed_low),
        high.max_deposit(requested) == Some(allowed_high),
    ensures
        allowed_low <= allowed_high,
{
    let factor = token_factor(low.mint_decimals).unwrap();
    lemma_pow10_increases(0, low.mint_decimals as nat);
    assert(factor > 0) by (nonlinear_arith)
        requires
            factor == pow10(low.mint_decimals as nat) * scale(),
            pow10(low.mint_decimals as nat) >= 1,
            scale() > 0,
    ;
    assert(low.total_asset_value_init_limit * factor <= high.total_asset_value_init_limit
        * factor) by (nonlinear_arith)
        requires
            low.total_asset_value_init_limit <= high.total_asset_value_init_limit,
            factor > 0,
    ;
}

/// The curve has no jump at the optimal utilization: the rising part ends
/// at the plateau rate there, and the part above begins at it.
pub proof fn lemma_curve_meets_at_optimal(optimal: int, plateau: int, max: int)
    requires
        0 < optimal < scale(),
        fits(plateau),
        fits(max - plateau),
    ensures
        rate_below(optimal, optimal, plateau) == Some(plateau),
        rate_above(optimal, optimal, plateau, max) == Some(plateau),
        rate_at(optimal, optimal, plateau, max) == Some(plateau),
{
    let s = scale();
    assert(optimal * s == s * optimal) by (nonlinear_arith);
    lemma_quotient_of_multiple(s, optimal);
    assert(s * plateau == s * plateau + 0);
    vstd::arithmetic::div_mod::lemma_div_multiples_vanish(plateau, s);
    let room = s - optimal;
    assert(0 * s == 0);
    assert(0int / room == 0) by (nonlinear_arith)
        requires
            room > 0,
    ;
    assert(0 * (max - plateau) == 0);
    assert(0int / s == 0);
}

/// One step below the optimal utilization the rate is below the plateau
/// rate by no more than the slope of the curve, counted in steps, and two
/// steps of rounding: the plateau rate over the optimal utilization, plus
/// the whole part of the plateau rate, plus two.
pub proof fn lemma_rate_one_step_below_optimal(optimal: int, plateau: int, rate: int)
    requires
        0 < optimal,
        0 <= plateau,
        rate_below(optimal - 1, optimal, plateau) == Some(rate),
    ensures
        0 <= plateau - rate <= plateau / optimal + plateau / scale() + 2,
{
    let s = scale();
    let o = optimal;
    let p = plateau;
    let q = quotient_toward_zero((o - 1) * s, o);
    assert((o - 1) * s >= 0) by (nonlinear_arith)
        requires
            o >= 1,
            s > 0,
    ;
    lemma_quotient_toward_zero_bounds((o - 1) * s, o);
    assert(rate == (q * p) / s);
    lemma_floor_bounds(q * p, s);
    let a = p / o;
    let b = p / s;
    lemma_floor_bounds(p, o);
    lemma_floor_bounds(p, s);
    // The rate is at most the plateau rate.
    assert(q < s) by (nonlinear_arith)
        requires
            q * o <= (o - 1) * s,
            o >= 1,
            s > 0,
    ;
    assert(q * p <= s * p) by (nonlinear_arith)
        requires
            q < s,
            p >= 0,
    ;
    assert(rate <= p) by (nonlinear_arith)
        requires
            rate * s <= q * p,
            q * p <= s * p,
            s > 0,
    ;
    // The rate is not far below it.
    assert((q * o) * p >= (o * s - s - o) * p) by (nonlinear_arith)
        requires
            (o - 1) * s - o < q * o,
            p >= 0,
    ;
    assert((rate * s) * o > (q * p) * o - s * o) by (nonlinear_arith)
        requires
            q * p < rate * s + s,
            o >= 1,
    ;
    assert((q * o) * p == (q * p) * o) by (nonlinear_arith);
    assert((o * s - s - o) * p == p * (s * o) - p * s - p * o) by (nonlinear_arith);
    assert(p * s < (a + 1) * (s * o)) by (nonlinear_arith)
        requires
            p < a * o + o,
            s > 0,
    ;
    assert(p * o < (b + 1) * (s * o)) by (nonlinear_arith)
        requires
            p < b * s + s,
            o > 0,
    ;
    assert((rate * s) * o == rate * (s * o)) by (nonlinear_arith);
    assert(rate > p - a - b - 3) by (nonlinear_arith)
        requires
            rate * (s * o) > p * (s * o) - (a + 1) * (s * o) - (b + 1) * (s * o) - s * o,
            s > 0,
            o > 0,
    ;
}

} // verus!
