use margin_engine::account::{MarginfiAccountBalance, MarginfiAccountWithBanks};
use margin_engine::address::Address;
use margin_engine::addresses::{
    MarginfiBank, MarginfiBankOracle, MeteoraDynamicPool, MeteoraFarmMeta, StaticAddresses,
};
use margin_engine::constants;
use margin_engine::error::Error;
use margin_engine::fixed_point::FixedPoint;
use margin_engine::instructions::{AccountMeta, Instruction, InstructionBuilder, ProgramIds};

fn key(tag: u8) -> Address {
    let mut bytes = [9u8; 32];
    bytes[0] = tag;
    Address::new(bytes)
}

fn programs() -> ProgramIds {
    ProgramIds { marginfi: key(201), meteora_pools: key(202), meteora_vault: key(203) }
}

fn builder() -> InstructionBuilder {
    InstructionBuilder::new(key(5), programs())
}

fn bank(address: Address, oracle: MarginfiBankOracle) -> MarginfiBank {
    MarginfiBank {
        address,
        liquidity_vault: key(address.to_bytes()[0] + 50),
        liquidity_vault_authority: key(address.to_bytes()[0] + 100),
        oracle,
    }
}

fn addresses() -> StaticAddresses {
    StaticAddresses {
        wallet_token_accounts: vec![(key(1), key(71)), (key(2), key(72)), (key(31), key(73))],
        marginfi_account: key(80),
        marginfi_banks: vec![
            (key(1), bank(key(11), MarginfiBankOracle::Pyth(key(21)))),
            (key(2), bank(key(12), MarginfiBankOracle::Switchboard(key(22)))),
        ],
        meteora_dynamic_pools: vec![(
            key(2),
            MeteoraDynamicPool {
                address: key(30),
                lp_mint: key(31),
                a_vault: key(32),
                b_vault: key(33),
                a_vault_lp: key(34),
                b_vault_lp: key(35),
                vault_a_vault: key(36),
                vault_b_vault: key(37),
                vault_a_lp_mint: key(38),
                vault_b_lp_mint: key(39),
                a_token_mint: key(1),
                b_token_mint: key(2),
            },
        )],
        meteora_farms: vec![(
            key(2),
            MeteoraFarmMeta { address: key(40), staking_vault: key(41), user_account: key(42) },
        )],
    }
}

fn position(bank_address: Address, is_active: bool) -> MarginfiAccountBalance {
    MarginfiAccountBalance {
        is_active,
        bank_address,
        asset_shares: FixedPoint::zero(),
        liability_shares: FixedPoint::zero(),
        asset_weight: FixedPoint::zero(),
        liabilities_weight: FixedPoint::zero(),
    }
}

fn account() -> MarginfiAccountWithBanks {
    let mut account = MarginfiAccountWithBanks::empty();
    account.balances.push((key(2), position(key(12), true)));
    account.balances.push((key(1), position(key(11), false)));
    account.balances.push((key(9), position(key(19), true)));
    account.balances.push((key(1), position(key(11), true)));
    account
}

fn same(meta: &AccountMeta, pubkey: Address, is_signer: bool, is_writable: bool) -> bool {
    meta.pubkey == pubkey && meta.is_signer == is_signer && meta.is_writable == is_writable
}

fn check(ix: &Instruction, expected: &Vec<(Address, bool, bool)>) {
    assert_eq!(ix.accounts.len(), expected.len());
    for (i, (pubkey, is_signer, is_writable)) in expected.iter().enumerate() {
        assert!(same(&ix.accounts[i], *pubkey, *is_signer, *is_writable), "account {}", i);
    }
}

#[test]
fn a_discriminator_is_the_beginning_of_a_hash() {
    assert_eq!(
        InstructionBuilder::generate_discriminator("global:deposit"),
        [242, 35, 198, 137, 82, 225, 242, 182]
    );
    assert_eq!(
        InstructionBuilder::generate_discriminator(""),
        [227, 176, 196, 66, 152, 252, 28, 20]
    );
}

#[test]
fn accounts_are_writable_or_read_only() {
    assert!(same(&AccountMeta::new(key(1), true), key(1), true, true));
    assert!(same(&AccountMeta::new(key(1), false), key(1), false, true));
    assert!(same(&AccountMeta::new_readonly(key(1), true), key(1), true, false));
    assert!(same(&AccountMeta::new_readonly(key(1), false), key(1), false, false));
}

#[test]
fn a_deposit_into_a_bank() {
    let ix = builder().marginfi_deposit(&addresses(), &key(1), 1234567890123, &account()).unwrap();
    assert!(ix.program_id == key(201));
    assert_eq!(
        ix.data,
        vec![171, 94, 235, 103, 82, 64, 212, 140, 203, 4, 251, 113, 31, 1, 0, 0]
    );
    check(
        &ix,
        &vec![
            (constants::marginfi_group(), false, false),
            (key(80), false, true),
            (key(5), true, true),
            (key(11), false, true),
            (key(71), false, true),
            (key(61), false, true),
            (constants::spl_token(), false, false),
            (key(12), false, false),
            (key(22), false, false),
            (key(11), false, false),
            (key(21), false, false),
        ],
    );
}

#[test]
fn a_loan_from_a_bank() {
    let ix = builder().marginfi_borrow(&addresses(), &key(2), 1, &account()).unwrap();
    assert!(ix.program_id == key(201));
    assert_eq!(ix.data, vec![4, 126, 116, 53, 48, 5, 212, 31, 1, 0, 0, 0, 0, 0, 0, 0]);
    check(
        &ix,
        &vec![
            (constants::marginfi_group(), false, false),
            (key(80), false, true),
            (key(5), true, true),
            (key(12), false, true),
            (key(72), false, true),
            (key(112), false, true),
            (key(62), false, true),
            (constants::spl_token(), false, false),
            (key(12), false, false),
            (key(22), false, false),
            (key(11), false, false),
            (key(21), false, false),
        ],
    );
}

#[test]
fn a_deposit_or_a_loan_needs_the_bank_and_the_token_account() {
    let empty = MarginfiAccountWithBanks::empty();
    let r = builder().marginfi_deposit(&addresses(), &key(3), 1, &empty);
    assert_eq!(r.err(), Some(Error::InvalidMarginfiBank));
    let r = builder().marginfi_borrow(&addresses(), &key(3), 1, &empty);
    assert_eq!(r.err(), Some(Error::InvalidMarginfiBank));
    let mut s = addresses();
    s.wallet_token_accounts.remove(0);
    let r = builder().marginfi_deposit(&s, &key(1), 1, &empty);
    assert_eq!(r.err(), Some(Error::InvalidTokenAccount));
    let ix = builder().marginfi_deposit(&addresses(), &key(1), 1, &empty).unwrap();
    assert_eq!(ix.accounts.len(), 7);
}

#[test]
fn a_deposit_into_a_pool() {
    let s = addresses();
    let pool = s.meteora_dynamic_pools[0].1;
    let ix = builder().meteora_pool_deposit(&s, &pool, 95, 100, 0).unwrap();
    assert!(ix.program_id == key(202));
    let mut data: Vec<u8> = vec![168, 227, 50, 62, 189, 171, 84, 176];
    data.extend_from_slice(&95u64.to_le_bytes());
    data.extend_from_slice(&100u64.to_le_bytes());
    data.extend_from_slice(&0u64.to_le_bytes());
    assert_eq!(ix.data, data);
    check(
        &ix,
        &vec![
            (key(30), false, true),
            (key(31), false, true),
            (key(73), false, true),
            (key(34), false, true),
            (key(35), false, true),
            (key(32), false, true),
            (key(33), false, true),
            (key(38), false, true),
            (key(39), false, true),
            (key(36), false, true),
            (key(37), false, true),
            (key(71), false, true),
            (key(72), false, true),
            (key(5), true, true),
            (key(203), false, false),
            (constants::spl_token(), false, false),
        ],
    );
    let mut s = addresses();
    s.wallet_token_accounts.pop();
    let r = builder().meteora_pool_deposit(&s, &pool, 95, 100, 0);
    assert_eq!(r.err(), Some(Error::InvalidTokenAccount));
}

#[test]
fn a_deposit_into_a_farm() {
    let ix = builder().meteora_farm_deposit(&addresses(), &key(2), 7).unwrap();
    assert!(ix.program_id == constants::meteora_farm());
    assert_eq!(ix.data, vec![242, 35, 198, 137, 82, 225, 242, 182, 7, 0, 0, 0, 0, 0, 0, 0]);
    check(
        &ix,
        &vec![
            (key(40), false, true),
            (key(41), false, true),
            (key(42), false, true),
            (key(5), true, true),
            (key(73), false, true),
            (constants::spl_token(), false, false),
        ],
    );
    let r = builder().meteora_farm_deposit(&addresses(), &key(1), 7);
    assert_eq!(r.err(), Some(Error::InvalidMeteoraFarm));
    let mut s = addresses();
    s.meteora_dynamic_pools.clear();
    let r = builder().meteora_farm_deposit(&s, &key(2), 7);
    assert_eq!(r.err(), Some(Error::InvalidMeteoraPool));
    let mut s = addresses();
    s.wallet_token_accounts.pop();
    let r = builder().meteora_farm_deposit(&s, &key(2), 7);
    assert_eq!(r.err(), Some(Error::InvalidTokenAccount));
}
