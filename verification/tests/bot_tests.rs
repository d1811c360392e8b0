use margin_engine::account::{MarginfiAccountWithBanks, OnChainBalance, OnChainMarginfiAccount};
use margin_engine::address::Address;
use margin_engine::addresses::{MarginfiBank, MarginfiBankOracle, MeteoraDynamicPool, StaticAddresses};
use margin_engine::bank::OnChainBank;
use margin_engine::bot::{
    borrow_candidates, create_marginfi_borrow_instructions, create_marginfi_deposit_instructions,
    create_pool_deposit_instruction, get_best_bank_for_borrow, minimum_pool_token_amount,
    needs_swap, plan_borrow, plan_deposit,
};
use margin_engine::constants;
use margin_engine::error::Error;
use margin_engine::fixed_point::FixedPoint;
use margin_engine::instructions::{Instruction, InstructionBuilder, ProgramIds};
use margin_engine::oracle::{AggregatorResolutionMode, SwitchboardDecimal, SwitchboardPriceFeed};
use margin_engine::oracle_cache::{OracleSetup, OraclesState, StateUpdate};

const ONE: i128 = 1 << 48;
const BILLION: i128 = 1_000_000_000;

fn whole(n: i128) -> FixedPoint {
    FixedPoint::from_bits(n * ONE)
}

fn key(tag: u8) -> Address {
    let mut bytes = [4u8; 32];
    bytes[0] = tag;
    Address::new(bytes)
}

fn bank_record(mint: Address, oracle: Address, decimals: u8, plateau_bits: i128) -> OnChainBank {
    OnChainBank {
        mint,
        mint_decimals: decimals,
        liquidity_vault: key(90),
        asset_share_value: ONE,
        liability_share_value: ONE,
        total_asset_shares: 1000 * ONE,
        total_liability_shares: 500 * ONE,
        asset_weight_init: ONE,
        liability_weight_init: 2 * ONE,
        total_asset_value_init_limit: 0,
        oracle_setup: OracleSetup::SwitchboardV2,
        oracle_keys: [
            oracle,
            Address::zero(),
            Address::zero(),
            Address::zero(),
            Address::zero(),
        ],
        optimal_utilization_rate: ONE / 2,
        plateau_interest_rate: plateau_bits,
        max_interest_rate: 3 * ONE,
    }
}

fn banks() -> Vec<(Address, OnChainBank)> {
    vec![
        (key(10), bank_record(constants::mint_bsol(), key(20), 9, 1)),
        (key(11), bank_record(constants::mint_usdc(), key(21), 6, 16888498602639)),
        (key(12), bank_record(constants::mint_usdt(), key(22), 6, 5629499534213)),
        (key(13), bank_record(constants::mint_uxd(), key(23), 6, 25332747903959)),
    ]
}

fn feed(price: i128) -> SwitchboardPriceFeed {
    SwitchboardPriceFeed {
        last_update_ts: 1,
        resolution_mode: AggregatorResolutionMode::ModeSlidingResolution,
        latest_confirmed_round_result: SwitchboardDecimal { mantissa: price, scale: 0 },
        latest_confirmed_round_num_success: 0,
        latest_confirmed_round_std_deviation: SwitchboardDecimal { mantissa: 0, scale: 0 },
        min_oracle_results: 0,
    }
}

fn oracles() -> OraclesState {
    let mut state = OraclesState::new();
    state.apply_update(StateUpdate::SwitchboardOracle((key(20), feed(20))));
    state.apply_update(StateUpdate::SwitchboardOracle((key(21), feed(1))));
    state.apply_update(StateUpdate::SwitchboardOracle((key(22), feed(1))));
    state.apply_update(StateUpdate::SwitchboardOracle((key(23), feed(1))));
    state
}

fn static_bank(address: Address, oracle: Address) -> MarginfiBank {
    MarginfiBank {
        address,
        liquidity_vault: key(90),
        liquidity_vault_authority: key(91),
        oracle: MarginfiBankOracle::Switchboard(oracle),
    }
}

fn addresses() -> StaticAddresses {
    StaticAddresses {
        wallet_token_accounts: vec![
            (constants::mint_bsol(), key(70)),
            (constants::mint_usdc(), key(71)),
            (constants::mint_usdt(), key(72)),
            (constants::mint_uxd(), key(73)),
            (key(31), key(74)),
            (key(32), key(75)),
        ],
        marginfi_account: key(80),
        marginfi_banks: vec![
            (constants::mint_bsol(), static_bank(key(10), key(20))),
            (constants::mint_usdc(), static_bank(key(11), key(21))),
            (constants::mint_usdt(), static_bank(key(12), key(22))),
            (constants::mint_uxd(), static_bank(key(13), key(23))),
        ],
        meteora_dynamic_pools: vec![(
            constants::mint_usdc(),
            MeteoraDynamicPool {
                address: key(30),
                lp_mint: key(31),
                a_vault: key(33),
                b_vault: key(34),
                a_vault_lp: key(35),
                b_vault_lp: key(36),
                vault_a_vault: key(37),
                vault_b_vault: key(38),
                vault_a_lp_mint: key(39),
                vault_b_lp_mint: key(40),
                a_token_mint: key(32),
                b_token_mint: constants::mint_usdc(),
            },
        )],
        meteora_farms: Vec::new(),
    }
}

fn builder() -> InstructionBuilder {
    InstructionBuilder::new(
        key(5),
        ProgramIds { marginfi: key(201), meteora_pools: key(202), meteora_vault: key(203) },
    )
}

fn account_with(bsol_units: i128) -> MarginfiAccountWithBanks {
    let mut records = OnChainMarginfiAccount { balances: Vec::new() };
    if bsol_units > 0 {
        records.balances.push(OnChainBalance {
            active: true,
            bank_pk: key(10),
            asset_shares: bsol_units * ONE,
            liability_shares: 0,
        });
    }
    MarginfiAccountWithBanks::new(&records, &banks()).unwrap()
}

#[test]
fn the_candidates_are_usdc_usdt_and_uxd() {
    let candidates = borrow_candidates();
    assert_eq!(candidates.len(), 3);
    assert!(candidates[0] == constants::mint_usdc());
    assert!(candidates[1] == constants::mint_usdt());
    assert!(candidates[2] == constants::mint_uxd());
}

#[test]
fn the_best_bank_among_the_three_candidates_is_usdt() {
    let account = account_with(0);
    let (mint, bank) = get_best_bank_for_borrow(&account).unwrap();
    assert!(mint == constants::mint_usdt());
    assert_eq!(bank.plateau_interest_rate.to_bits(), 5629499534213);
    let mut fewer = MarginfiAccountWithBanks::empty();
    let mut some = banks();
    some.pop();
    fewer.update_banks(&some);
    assert!(matches!(get_best_bank_for_borrow(&fewer), Err(Error::InvalidMarginfiBank)));
}

#[test]
fn a_deposit_is_planned_for_what_is_missing() {
    assert_eq!(plan_deposit(&account_with(0), 5), Ok(Some(whole(5))));
    assert_eq!(plan_deposit(&account_with(3), 5), Ok(Some(whole(2))));
    assert_eq!(plan_deposit(&account_with(5), 5), Ok(None));
    assert_eq!(plan_deposit(&account_with(9), 5), Ok(None));
    assert_eq!(plan_deposit(&account_with(0), 0), Ok(None));
    let empty = MarginfiAccountWithBanks::empty();
    assert_eq!(plan_deposit(&empty, 5), Err(Error::InvalidMarginfiBank));
}

#[test]
fn a_planned_deposit_respects_the_cap_of_the_bank() {
    let mut account = account_with(0);
    account.banks[0].1.total_asset_value_init_limit = 1;
    account.banks[0].1.mint_decimals = 3;
    assert_eq!(plan_deposit(&account, 5), Ok(Some(FixedPoint::zero())));
    account.banks[0].1.total_asset_shares = whole(997);
    assert_eq!(plan_deposit(&account, 5), Ok(Some(whole(3))));
    account.banks[0].1.mint_decimals = 30;
    assert_eq!(plan_deposit(&account, 5), Err(Error::MathOverflow));
}

#[test]
fn a_position_that_cannot_be_counted_stops_the_plan() {
    let mut account = account_with(3);
    account.balances[0].1.asset_shares = whole(-1);
    assert_eq!(plan_deposit(&account, 5), Err(Error::MathOverflow));
    account.balances[0].1.asset_shares = FixedPoint::max_value();
    assert_eq!(plan_deposit(&account, 5), Err(Error::MathOverflow));
}

#[test]
fn a_deposit_is_booked_and_its_instruction_is_added() {
    let mut account = account_with(3 * BILLION);
    let mut instructions: Vec<Instruction> = Vec::new();
    let r = create_marginfi_deposit_instructions(
        &mut account,
        &addresses(),
        &builder(),
        &mut instructions,
        5 * BILLION as u64,
    );
    assert_eq!(r, Ok(()));
    assert_eq!(account.balances[0].1.asset_shares, whole(5 * BILLION));
    assert_eq!(instructions.len(), 1);
    assert!(instructions[0].program_id == key(201));
    let mut data: Vec<u8> = vec![171, 94, 235, 103, 82, 64, 212, 140];
    data.extend_from_slice(&(2 * BILLION as u64).to_le_bytes());
    assert_eq!(instructions[0].data, data);
    assert_eq!(instructions[0].accounts.len(), 9);
    assert!(instructions[0].accounts[3].pubkey == key(10));
    assert!(instructions[0].accounts[7].pubkey == key(10));
    assert!(instructions[0].accounts[8].pubkey == key(20));
    let r = create_marginfi_deposit_instructions(
        &mut account,
        &addresses(),
        &builder(),
        &mut instructions,
        5 * BILLION as u64,
    );
    assert_eq!(r, Ok(()));
    assert_eq!(instructions.len(), 1);
}

#[test]
fn a_deposit_that_fails_adds_no_instruction() {
    let mut account = account_with(0);
    let mut instructions: Vec<Instruction> = Vec::new();
    let mut without = addresses();
    without.wallet_token_accounts.remove(0);
    let r = create_marginfi_deposit_instructions(
        &mut account,
        &without,
        &builder(),
        &mut instructions,
        5,
    );
    assert_eq!(r, Err(Error::InvalidTokenAccount));
    assert!(instructions.is_empty());
}

#[test]
fn a_loan_is_nine_tenths_of_the_worth_over_the_weight() {
    assert_eq!(plan_borrow(whole(1000), whole(2)), Ok(whole(450)));
    assert_eq!(plan_borrow(whole(10), whole(1)), Ok(whole(9)));
    assert_eq!(plan_borrow(FixedPoint::from_bits(11), whole(1)), Ok(FixedPoint::from_bits(9)));
    assert_eq!(plan_borrow(FixedPoint::from_bits(-11), whole(1)), Ok(FixedPoint::from_bits(-9)));
    assert_eq!(plan_borrow(whole(10), FixedPoint::zero()), Err(Error::MathOverflow));
    assert_eq!(plan_borrow(FixedPoint::max_value(), whole(1)), Err(Error::MathOverflow));
    assert_eq!(whole(10).nine_tenths(), Ok(whole(9)));
}

#[test]
fn a_loan_is_booked_and_its_instruction_is_added() {
    let mut account = account_with(2 * BILLION);
    let mut instructions: Vec<Instruction> = Vec::new();
    let (amount, mint) = create_marginfi_borrow_instructions(
        &mut account,
        &oracles(),
        &mut instructions,
        &addresses(),
        &builder(),
    )
    .unwrap();
    assert!(mint == constants::mint_usdt());
    assert_eq!(amount, 18_000_000);
    assert_eq!(account.balances.len(), 2);
    assert!(account.balances[1].0 == constants::mint_usdt());
    assert!(account.balances[1].1.is_active);
    assert_eq!(account.balances[1].1.liability_shares, whole(18_000_000));
    assert_eq!(account.balances[1].1.asset_shares, FixedPoint::zero());
    assert_eq!(instructions.len(), 1);
    let mut data: Vec<u8> = vec![4, 126, 116, 53, 48, 5, 212, 31];
    data.extend_from_slice(&18_000_000u64.to_le_bytes());
    assert_eq!(instructions[0].data, data);
    assert!(instructions[0].accounts[3].pubkey == key(12));
    assert_eq!(instructions[0].accounts.len(), 12);
}

#[test]
fn a_loan_that_fails_adds_no_instruction() {
    let mut account = account_with(2 * BILLION);
    let mut instructions: Vec<Instruction> = Vec::new();
    let r = create_marginfi_borrow_instructions(
        &mut account,
        &OraclesState::new(),
        &mut instructions,
        &addresses(),
        &builder(),
    );
    assert_eq!(r.err(), Some(Error::UnableToFetchAccount));
    assert!(instructions.is_empty());
    assert_eq!(account.balances.len(), 1);
}

#[test]
fn everything_but_usdc_is_swapped() {
    assert!(!needs_swap(&constants::mint_usdc()));
    assert!(needs_swap(&constants::mint_usdt()));
    assert!(needs_swap(&constants::mint_uxd()));
}

#[test]
fn the_least_share_amount_is_ninety_five_hundredths() {
    assert_eq!(minimum_pool_token_amount(100), 95);
    assert_eq!(minimum_pool_token_amount(0), 0);
    assert_eq!(minimum_pool_token_amount(1), 0);
    assert_eq!(minimum_pool_token_amount(21), 19);
    assert_eq!(minimum_pool_token_amount(u64::MAX), 17524406870024074034);
}

#[test]
fn usdc_goes_into_its_pool_on_its_own_side() {
    let ix = create_pool_deposit_instruction(&addresses(), &builder(), 1000).unwrap();
    assert!(ix.program_id == key(202));
    let mut data: Vec<u8> = vec![168, 227, 50, 62, 189, 171, 84, 176];
    data.extend_from_slice(&0u64.to_le_bytes());
    data.extend_from_slice(&0u64.to_le_bytes());
    data.extend_from_slice(&1000u64.to_le_bytes());
    assert_eq!(ix.data, data);
    assert_eq!(ix.accounts.len(), 16);
    let mut on_a_side = addresses();
    on_a_side.meteora_dynamic_pools[0].1.a_token_mint = constants::mint_usdc();
    on_a_side.meteora_dynamic_pools[0].1.b_token_mint = key(32);
    let ix = create_pool_deposit_instruction(&on_a_side, &builder(), 1000).unwrap();
    let mut data: Vec<u8> = vec![168, 227, 50, 62, 189, 171, 84, 176];
    data.extend_from_slice(&950u64.to_le_bytes());
    data.extend_from_slice(&1000u64.to_le_bytes());
    data.extend_from_slice(&0u64.to_le_bytes());
    assert_eq!(ix.data, data);
    let mut without = addresses();
    without.meteora_dynamic_pools.clear();
    let r = create_pool_deposit_instruction(&without, &builder(), 1000);
    assert_eq!(r.err(), Some(Error::InvalidMeteoraPool));
}

#[test]
fn a_pool_deposit_needs_the_three_token_accounts() {
    let mut places: Vec<usize> = vec![1, 4, 5];
    while let Some(place) = places.pop() {
        let mut without = addresses();
        without.wallet_token_accounts.remove(place);
        let r = create_pool_deposit_instruction(&without, &builder(), 1000);
        assert_eq!(r.err(), Some(Error::InvalidTokenAccount));
    }
    let mut spare = addresses();
    spare.wallet_token_accounts.remove(0);
    spare.wallet_token_accounts.remove(1);
    assert!(create_pool_deposit_instruction(&spare, &builder(), 1000).is_ok());
}
