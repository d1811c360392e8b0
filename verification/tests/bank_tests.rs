use margin_engine::address::Address;
use margin_engine::bank::{MarginfiBank, OnChainBank};
use margin_engine::error::Error;
use margin_engine::fixed_point::FixedPoint;
use margin_engine::oracle_cache::OracleSetup;

const ONE: i128 = 1 << 48;

fn whole(n: i128) -> FixedPoint {
    FixedPoint::from_bits(n * ONE)
}

fn capped_bank(cap: u64, decimals: u8, deposited_tokens: i128) -> MarginfiBank {
    let mut bank = MarginfiBank::default();
    bank.total_asset_value_init_limit = cap;
    bank.mint_decimals = decimals;
    bank.asset_share_value = FixedPoint::one();
    let mut units: i128 = deposited_tokens;
    let mut i: u8 = 0;
    while i < decimals {
        units *= 10;
        i += 1;
    }
    bank.total_asset_shares = whole(units);
    bank
}

fn curve_bank(assets: i128, liabilities: i128) -> MarginfiBank {
    let mut bank = MarginfiBank::default();
    bank.total_asset_shares = whole(assets);
    bank.total_liability_shares = whole(liabilities);
    bank.optimal_utilization_rate = FixedPoint::from_bits(225179981368524);
    bank.plateau_interest_rate = FixedPoint::from_bits(28147497671065);
    bank.max_interest_rate = FixedPoint::from_bits(140737488355328);
    bank
}

#[test]
fn a_default_bank_is_empty_and_priced_by_pyth() {
    let bank = MarginfiBank::default();
    assert_eq!(bank.oracle_setup, OracleSetup::PythEma);
    assert_eq!(bank.mint_decimals, 0);
    assert_eq!(bank.total_asset_value_init_limit, 0);
    assert!(bank.mint == Address::zero());
    assert_eq!(bank.asset_share_value, FixedPoint::zero());
    assert_eq!(bank.max_interest_rate, FixedPoint::zero());
}

#[test]
fn a_bank_is_read_from_its_record() {
    let mut mint = [0u8; 32];
    mint[0] = 1;
    let mut oracle = [0u8; 32];
    oracle[0] = 2;
    let record = OnChainBank {
        mint: Address::new(mint),
        mint_decimals: 6,
        liquidity_vault: Address::zero(),
        asset_share_value: 11,
        liability_share_value: 12,
        total_asset_shares: 13,
        total_liability_shares: 14,
        asset_weight_init: 15,
        liability_weight_init: 16,
        total_asset_value_init_limit: 17,
        oracle_setup: OracleSetup::SwitchboardV2,
        oracle_keys: [
            Address::new(oracle),
            Address::zero(),
            Address::zero(),
            Address::zero(),
            Address::zero(),
        ],
        optimal_utilization_rate: 18,
        plateau_interest_rate: 19,
        max_interest_rate: 20,
    };
    let bank = MarginfiBank::from_on_chain(record);
    assert!(bank.mint == Address::new(mint));
    assert!(bank.oracle_address == Address::new(oracle));
    assert_eq!(bank.mint_decimals, 6);
    assert_eq!(bank.oracle_setup, OracleSetup::SwitchboardV2);
    assert_eq!(bank.asset_share_value.to_bits(), 11);
    assert_eq!(bank.liability_share_value.to_bits(), 12);
    assert_eq!(bank.total_asset_shares.to_bits(), 13);
    assert_eq!(bank.total_liability_shares.to_bits(), 14);
    assert_eq!(bank.asset_weight_init.to_bits(), 15);
    assert_eq!(bank.liability_weight_init.to_bits(), 16);
    assert_eq!(bank.total_asset_value_init_limit, 17);
    assert_eq!(bank.optimal_utilization_rate.to_bits(), 18);
    assert_eq!(bank.plateau_interest_rate.to_bits(), 19);
    assert_eq!(bank.max_interest_rate.to_bits(), 20);
}

#[test]
fn scaling_factor_is_a_power_of_ten() {
    let mut bank = MarginfiBank::default();
    bank.mint_decimals = 6;
    assert_eq!(bank.scaling_factor(), Ok(whole(1_000_000)));
    bank.mint_decimals = 23;
    assert_eq!(bank.scaling_factor(), Ok(whole(100_000_000_000_000_000_000_000)));
    bank.mint_decimals = 24;
    assert_eq!(bank.scaling_factor(), Err(Error::MathOverflow));
}

#[test]
fn max_deposit_under_a_cap_is_what_is_left() {
    let bank = capped_bank(1_000_000, 0, 900_000);
    assert_eq!(bank.get_max_deposit_amount(whole(200_000)), Ok(whole(100_000)));
    let bank = capped_bank(1_000_000, 6, 900_000);
    assert_eq!(
        bank.get_max_deposit_amount(whole(200_000_000_000)),
        Ok(whole(100_000_000_000))
    );
}

#[test]
fn max_deposit_without_a_cap_is_all_that_is_asked() {
    let bank = capped_bank(0, 6, 900_000);
    assert_eq!(bank.get_max_deposit_amount(whole(200_000)), Ok(whole(200_000)));
    assert_eq!(bank.get_max_deposit_amount(whole(-5)), Ok(whole(-5)));
    let mut bank = capped_bank(0, 30, 0);
    bank.total_asset_shares = FixedPoint::max_value();
    bank.asset_share_value = FixedPoint::max_value();
    assert_eq!(bank.get_max_deposit_amount(whole(1)), Ok(whole(1)));
}

#[test]
fn max_deposit_below_the_room_is_all_that_is_asked() {
    let bank = capped_bank(1_000_000, 0, 900_000);
    assert_eq!(bank.get_max_deposit_amount(whole(50_000)), Ok(whole(50_000)));
    assert_eq!(bank.get_max_deposit_amount(whole(100_000)), Ok(whole(100_000)));
}

#[test]
fn max_deposit_in_a_full_bank_is_nothing() {
    let bank = capped_bank(1_000_000, 0, 1_000_000);
    assert_eq!(bank.get_max_deposit_amount(whole(1)), Ok(whole(0)));
    let bank = capped_bank(1_000_000, 0, 2_000_000);
    assert_eq!(bank.get_max_deposit_amount(whole(1)), Ok(whole(0)));
    assert_eq!(bank.get_max_deposit_amount(whole(-7)), Ok(whole(-7)));
}

#[test]
fn max_deposit_grows_with_the_cap_and_stays_under_the_request() {
    let caps: Vec<u64> = vec![1, 10, 899_999, 900_000, 900_001, 950_000, 1_000_000, 5_000_000];
    let requested = whole(70_000);
    let mut last = whole(-1);
    for cap in caps {
        let bank = capped_bank(cap, 0, 900_000);
        let allowed = bank.get_max_deposit_amount(requested).unwrap();
        assert!(allowed.le(&requested));
        assert!(last.le(&allowed));
        last = allowed;
    }
    assert_eq!(last, requested);
}

#[test]
fn max_deposit_with_room_beyond_the_range_is_all_that_is_asked() {
    let mut bank = capped_bank(u64::MAX, 0, 0);
    bank.asset_share_value = FixedPoint::one();
    bank.total_asset_shares = FixedPoint::from_bits(i128::MIN);
    assert_eq!(bank.get_max_deposit_amount(whole(9)), Ok(whole(9)));
}

#[test]
fn max_deposit_that_cannot_be_calculated_is_an_overflow() {
    let bank = capped_bank(1, 24, 0);
    assert_eq!(bank.get_max_deposit_amount(whole(1)), Err(Error::MathOverflow));
    let bank = capped_bank(u64::MAX, 23, 0);
    assert_eq!(bank.get_max_deposit_amount(whole(1)), Err(Error::MathOverflow));
    let mut bank = capped_bank(1, 0, 0);
    bank.asset_share_value = FixedPoint::max_value();
    bank.total_asset_shares = FixedPoint::max_value();
    assert_eq!(bank.get_max_deposit_amount(whole(1)), Err(Error::MathOverflow));
}

#[test]
fn borrow_rate_without_loans_is_zero() {
    let bank = curve_bank(100, 0);
    assert_eq!(bank.get_borrow_rate(), Ok(FixedPoint::zero()));
    let bank = curve_bank(0, 0);
    assert_eq!(bank.get_borrow_rate(), Ok(FixedPoint::zero()));
}

#[test]
fn borrow_rate_below_the_optimal_utilization() {
    let bank = curve_bank(100, 50);
    let rate = bank.get_borrow_rate().unwrap();
    assert_eq!(rate.to_bits(), 17592186044415);
    let exact: f64 = 0.0625;
    let got: f64 = rate.to_bits() as f64 / ONE as f64;
    assert!((got - exact).abs() < 1e-12);
}

#[test]
fn borrow_rate_above_the_optimal_utilization() {
    let bank = curve_bank(100, 90);
    let rate = bank.get_borrow_rate().unwrap();
    assert_eq!(rate.to_bits(), 84442493013196);
    let got: f64 = rate.to_bits() as f64 / ONE as f64;
    assert!((got - 0.3).abs() < 1e-12);
}

#[test]
fn borrow_rate_at_the_optimal_utilization_is_the_plateau_rate() {
    let mut bank = curve_bank(1, 1);
    bank.total_asset_shares = FixedPoint::one();
    bank.total_liability_shares = bank.optimal_utilization_rate;
    assert_eq!(bank.get_borrow_rate(), Ok(bank.plateau_interest_rate));
}

#[test]
fn borrow_rate_has_no_jump_at_the_optimal_utilization() {
    let mut bank = curve_bank(1, 1);
    bank.total_asset_shares = FixedPoint::one();
    let optimal: i128 = bank.optimal_utilization_rate.to_bits();
    bank.total_liability_shares = FixedPoint::from_bits(optimal);
    let at = bank.get_borrow_rate().unwrap().to_bits();
    bank.total_liability_shares = FixedPoint::from_bits(optimal - 1);
    let below = bank.get_borrow_rate().unwrap().to_bits();
    bank.total_liability_shares = FixedPoint::from_bits(optimal + 1);
    let above = bank.get_borrow_rate().unwrap().to_bits();
    assert_eq!(at - below, 1);
    assert!(at - below <= 2);
    assert!(above >= at && above - at <= 2);
}

#[test]
fn borrow_rate_without_deposits_is_guarded() {
    let bank = curve_bank(0, 5);
    assert_eq!(bank.get_borrow_rate(), Err(Error::MathOverflow));
}

#[test]
fn borrow_rate_with_a_flat_curve_is_guarded() {
    let mut bank = curve_bank(100, 100);
    bank.optimal_utilization_rate = FixedPoint::one();
    assert_eq!(bank.get_borrow_rate(), Ok(bank.plateau_interest_rate));
    bank.total_liability_shares = whole(101);
    assert_eq!(bank.get_borrow_rate(), Err(Error::MathOverflow));
    let mut bank = curve_bank(100, 1);
    bank.optimal_utilization_rate = FixedPoint::zero();
    bank.total_liability_shares = FixedPoint::from_bits(-ONE);
    assert_eq!(bank.get_borrow_rate(), Err(Error::MathOverflow));
}
