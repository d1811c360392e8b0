//! The steps of one pass of the strategy, as far as they are decisions: how
//! much to deposit, where and how much to borrow, and what to put into the
//! pool.
use crate::account::{
    bank_of_mint, candidate_rates, is_first_lowest, positions_after, total_value,
    MarginfiAccountBalance, MarginfiAccountWithBanks,
};
use crate::address::Address;
use crate::addresses::StaticAddresses;
use crate::bank::MarginfiBank;
use crate::constants;
use crate::error::Error;
use crate::fixed_point::{
    div_checked, fits, quotient_toward_zero, scale, whole_part, FixedPoint,
};
use crate::instructions::{
    pool_deposit_payload, pool_deposit_preimage, AccountMeta, Instruction, InstructionBuilder,
};
use crate::keyed::first_value;
use crate::oracle_cache::OraclesState;
use vstd::prelude::*;

verus! {

/// The mints that may be borrowed, in the order in which they are tried:
/// USDC, USDT and UXD.
pub fn borrow_candidates() -> (r: Vec<Address>)
    ensures
        r@.len() == 3,
        r@[0] == constants::mint_usdc_address(),
        r@[1] == constants::mint_usdt_address(),
        r@[2] == constants::mint_uxd_address(),
{
    let mut candidates: Vec<Address> = Vec::new();
    candidates.push(constants::mint_usdc());
    candidates.push(constants::mint_usdt());
    candidates.push(constants::mint_uxd());
    candidates
}

/// The candidate mint whose bank lends at the lowest rate, with that bank.
pub fn get_best_bank_for_borrow(account_with_banks: &MarginfiAccountWithBanks) -> (r: Result<
    (Address, &MarginfiBank),
    Error,
>)
    ensures
        match r {
            Ok(target) => {
                let candidates = seq![
                    constants::mint_usdc_address(),
                    constants::mint_usdt_address(),
                    constants::mint_uxd_address(),
                ];
                &&& candidate_rates(account_with_banks.banks@, candidates, 3) is Ok
                &&& exists|i: int|
                    {
                        &&& is_first_lowest(
                            candidate_rates(account_with_banks.banks@, candidates, 3).unwrap(),
                            i,
                        )
                        &&& 0 <= i < 3
                        &&& target.0 == candidates[i]
                        &&& bank_of_mint(account_with_banks.banks@, candidates[i]@) is Some
                        &&& bank_of_mint(account_with_banks.banks@, candidates[i]@).unwrap().1
                            == *target.1
                    }
            },
            Err(e) => candidate_rates(
                account_with_banks.banks@,
                seq![
                    constants::mint_usdc_address(),
                    constants::mint_usdt_address(),
                    constants::mint_uxd_address(),
                ],
                3,
            ) == Err::<Seq<int>, Error>(e),
        },
{
    let candidates = borrow_candidates();
    assert(candidates@ =~= seq![
        constants::mint_usdc_address(),
        constants::mint_usdt_address(),
        constants::mint_uxd_address(),
    ]);
    account_with_banks.best_borrow_target(&candidates)
}

/// What an account holds of a mint, in whole smallest units: nothing where
/// it has no position in the mint. `MathOverflow` where the amount is
/// negative or too large to count.
pub open spec fn held_units(account: MarginfiAccountWithBanks, bank: MarginfiBank, mint: Seq<u8>) -> Result<
    u64,
    Error,
> {
    match first_value(account.balances@, mint) {
        None => Ok(0u64),
        Some(balance) => match balance.amounts(
            bank.asset_share_value@,
            bank.liability_share_value@,
        ) {
            None => Err(Error::MathOverflow),
            Some(amounts) => match whole_part(amounts.0) {
                Some(units) => Ok(units),
                None => Err(Error::MathOverflow),
            },
        },
    }
}

/// The bits of the amount of bSOL to deposit so that the account holds
/// `bsol_amount`: what is missing, as far as the bank takes it. Nothing
/// where the account holds that much already.
pub open spec fn deposit_plan(account: MarginfiAccountWithBanks, bsol_amount: u64) -> Result<
    Option<int>,
    Error,
> {
    match bank_of_mint(account.banks@, constants::mint_bsol_bytes()) {
        None => Err(Error::InvalidMarginfiBank),
        Some(entry) => match held_units(account, entry.1, constants::mint_bsol_bytes()) {
            Err(e) => Err(e),
            Ok(held) => if held < bsol_amount {
                match entry.1.max_deposit((bsol_amount - held) * scale()) {
                    Some(amount) => Ok(Some(amount)),
                    None => Err(Error::MathOverflow),
                }
            } else {
                Ok(None)
            },
        },
    }
}

/// How much bSOL to deposit so that the account holds `bsol_amount`.
pub fn plan_deposit(account_with_banks: &MarginfiAccountWithBanks, bsol_amount: u64) -> (r: Result<
    Option<FixedPoint>,
    Error,
>)
    ensures
        match r {
            Ok(Some(amount)) => deposit_plan(*account_with_banks, bsol_amount) == Ok::<
                Option<int>,
                Error,
            >(Some(amount@)),
            Ok(None) => deposit_plan(*account_with_banks, bsol_amount) == Ok::<Option<int>, Error>(
                None,
            ),
            Err(e) => deposit_plan(*account_with_banks, bsol_amount) == Err::<Option<int>, Error>(
                e,
            ),
        },
{
    let mint = constants::mint_bsol();
    let bank = match account_with_banks.get_bank_by_mint(&mint) {
        Some(entry) => &entry.1,
        None => {
            return Err(Error::InvalidMarginfiBank);
        },
    };
    let account_amount: u64 = match account_with_banks.get_balance_by_mint(&mint) {
        Some(balance) => {
            let amounts = balance.get_amounts(bank.asset_share_value, bank.liability_share_value)?;
            match amounts.0.checked_to_u64() {
                Some(units) => units,
                None => {
                    return Err(Error::MathOverflow);
                },
            }
        },
        None => 0,
    };
    if account_amount < bsol_amount {
        let missing: u64 = bsol_amount - account_amount;
        let deposit_amount = bank.get_max_deposit_amount(FixedPoint::from_u64(missing))?;
        Ok(Some(deposit_amount))
    } else {
        Ok(None)
    }
}

/// Books the deposit of bSOL that brings the account to `bsol_amount` and
/// adds its instruction to the list. Where the account holds that much
/// already, nothing happens. On an error the list stays as it was.
pub fn create_marginfi_deposit_instructions(
    account_with_banks: &mut MarginfiAccountWithBanks,
    static_addresses: &StaticAddresses,
    instruction_builder: &InstructionBuilder,
    instructions: &mut Vec<Instruction>,
    bsol_amount: u64,
) -> (r: Result<(), Error>)
    ensures
        final(account_with_banks).banks@ == old(account_with_banks).banks@,
        match r {
            Ok(()) => match deposit_plan(*old(account_with_banks), bsol_amount) {
                Ok(None) => {
                    &&& final(account_with_banks).balances@ == old(account_with_banks).balances@
                    &&& final(instructions)@ == old(instructions)@
                },
                Ok(Some(amount)) => {
                    &&& positions_after(
                        old(account_with_banks).balances@,
                        old(account_with_banks).banks@,
                        amount,
                        constants::mint_bsol_address(),
                        false,
                    ) == Ok::<Seq<(Address, MarginfiAccountBalance)>, Error>(
                        final(account_with_banks).balances@,
                    )
                    &&& whole_part(amount) is Some
                    &&& final(instructions)@.len() == old(instructions)@.len() + 1
                    &&& final(instructions)@.subrange(0, old(instructions)@.len() as int) == old(
                        instructions,
                    )@
                    &&& final(instructions)@.last().program_id
                        == instruction_builder.programs().marginfi
                    &&& instruction_builder.lending_instruction(
                        *static_addresses,
                        constants::mint_bsol_bytes(),
                        whole_part(amount).unwrap(),
                        *final(account_with_banks),
                        false,
                    ) == Ok::<(Seq<AccountMeta>, Seq<u8>), Error>(
                        (final(instructions)@.last().accounts@, final(instructions)@.last().data@),
                    )
                },
                Err(_) => false,
            },
            Err(e) => {
                &&& final(instructions)@ == old(instructions)@
                &&& match deposit_plan(*old(account_with_banks), bsol_amount) {
                    Err(planned) => e == planned && final(account_with_banks).balances@ == old(
                        account_with_banks,
                    ).balances@,
                    Ok(None) => false,
                    Ok(Some(amount)) => if whole_part(amount) is None {
                        e == Error::MathOverflow && final(account_with_banks).balances@ == old(
                            account_with_banks,
                        ).balances@
                    } else {
                        match positions_after(
                            old(account_with_banks).balances@,
                            old(account_with_banks).banks@,
                            amount,
                            constants::mint_bsol_address(),
                            false,
                        ) {
                            Err(booked) => e == booked && final(account_with_banks).balances@
                                == old(account_with_banks).balances@,
                            Ok(balances) => final(account_with_banks).balances@ == balances
                                && instruction_builder.lending_instruction(
                                *static_addresses,
                                constants::mint_bsol_bytes(),
                                whole_part(amount).unwrap(),
                                *final(account_with_banks),
                                false,
                            ) == Err::<(Seq<AccountMeta>, Seq<u8>), Error>(e),
                        }
                    },
                }
            },
        },
{
    let mint = constants::mint_bsol();
    match plan_deposit(account_with_banks, bsol_amount)? {
        None => Ok(()),
        Some(deposit_amount) => {
            let units: u64 = match deposit_amount.checked_to_u64() {
                Some(u) => u,
                None => {
                    return Err(Error::MathOverflow);
                },
            };
            account_with_banks.deposit(deposit_amount, &mint)?;
            let ix = instruction_builder.marginfi_deposit(
                static_addresses,
                &mint,
                units,
                account_with_banks,
            )?;
            let ghost before = instructions@;
            instructions.push(ix);
            assert(instructions@.subrange(0, before.len() as int) =~= before);
            Ok(())
        },
    }
}

/// The bits of the amount to borrow against assets worth `free_amount`:
/// nine tenths of that worth, divided by the liability weight of the bank
/// that lends.
pub open spec fn borrow_amount(free_amount: int, liability_weight: int) -> Option<int> {
    if fits(free_amount * 9) {
        div_checked(quotient_toward_zero(free_amount * 9, 10), liability_weight)
    } else {
        None
    }
}

/// How much to borrow against assets worth `free_amount` from a bank with
/// the given liability weight.
pub fn plan_borrow(free_amount: FixedPoint, liability_weight: FixedPoint) -> (r: Result<
    FixedPoint,
    Error,
>)
    ensures
        match r {
            Ok(v) => borrow_amount(free_amount@, liability_weight@) == Some(v@),
            Err(e) => borrow_amount(free_amount@, liability_weight@) is None && e
                == Error::MathOverflow,
        },
{
    let borrow_amount = free_amount.nine_tenths()?;
    borrow_amount.try_div(liability_weight)
}

/// The mints that may be borrowed, as a list.
pub open spec fn candidate_mints() -> Seq<Address> {
    seq![
        constants::mint_usdc_address(),
        constants::mint_usdt_address(),
        constants::mint_uxd_address(),
    ]
}

/// Whether `e` is the error with which the booking of a loan fails, and
/// `after` the account that the failure leaves: the first of the steps that
/// fails gives the error, and only a failure to make the instruction leaves
/// the loan booked.
pub open spec fn borrow_failure(
    before: MarginfiAccountWithBanks,
    oracles: OraclesState,
    static_addresses: StaticAddresses,
    builder: InstructionBuilder,
    after: MarginfiAccountWithBanks,
    e: Error,
) -> bool {
    match total_value(before.balances@, before.banks@, oracles, before.balances@.len()) {
        Err(valued) => e == valued && after.balances@ == before.balances@,
        Ok(worth) => match candidate_rates(before.banks@, candidate_mints(), 3) {
            Err(rated) => e == rated && after.balances@ == before.balances@,
            Ok(rates) => exists|i: int|
                {
                    &&& is_first_lowest(rates, i)
                    &&& 0 <= i < 3
                    &&& bank_of_mint(before.banks@, candidate_mints()[i]@) is Some
                    &&& loan_failure(
                        before,
                        static_addresses,
                        builder,
                        after,
                        e,
                        candidate_mints()[i],
                        borrow_amount(
                            worth.0,
                            bank_of_mint(
                                before.banks@,
                                candidate_mints()[i]@,
                            ).unwrap().1.liability_weight_init@,
                        ),
                    )
                },
        },
    }
}

/// Whether `e` is the error with which the loan of `amount` of `mint`
/// fails, and `after` the account that the failure leaves.
pub open spec fn loan_failure(
    before: MarginfiAccountWithBanks,
    static_addresses: StaticAddresses,
    builder: InstructionBuilder,
    after: MarginfiAccountWithBanks,
    e: Error,
    mint: Address,
    amount: Option<int>,
) -> bool {
    match amount {
        None => e == Error::MathOverflow && after.balances@ == before.balances@,
        Some(bits) => if whole_part(bits) is None {
            e == Error::MathOverflow && after.balances@ == before.balances@
        } else {
            match positions_after(before.balances@, before.banks@, bits, mint, true) {
                Err(booked) => e == booked && after.balances@ == before.balances@,
                Ok(balances) => after.balances@ == balances && builder.lending_instruction(
                    static_addresses,
                    mint@,
                    whole_part(bits).unwrap(),
                    after,
                    true,
                ) == Err::<(Seq<AccountMeta>, Seq<u8>), Error>(e),
            }
        },
    }
}

/// Books a loan against nine tenths of what the account's assets are worth,
/// from the candidate bank with the lowest rate, and adds its instruction to
/// the list. Gives the amount and the mint of the loan. On an error the
/// list stays as it was.
pub fn create_marginfi_borrow_instructions(
    account_with_banks: &mut MarginfiAccountWithBanks,
    oracles_state: &OraclesState,
    instructions: &mut Vec<Instruction>,
    static_addresses: &StaticAddresses,
    instruction_builder: &InstructionBuilder,
) -> (r: Result<(u64, Address), Error>)
    ensures
        final(account_with_banks).banks@ == old(account_with_banks).banks@,
        match r {
            Ok(loan) => {
                let worth = total_value(
                    old(account_with_banks).balances@,
                    old(account_with_banks).banks@,
                    *oracles_state,
                    old(account_with_banks).balances@.len(),
                );
                let bank = bank_of_mint(old(account_with_banks).banks@, loan.1@);
                &&& worth is Ok
                &&& bank is Some
                &&& borrow_amount(worth.unwrap().0, bank.unwrap().1.liability_weight_init@) is Some
                &&& whole_part(
                    borrow_amount(worth.unwrap().0, bank.unwrap().1.liability_weight_init@).unwrap(),
                ) == Some(loan.0)
                &&& positions_after(
                    old(account_with_banks).balances@,
                    old(account_with_banks).banks@,
                    borrow_amount(worth.unwrap().0, bank.unwrap().1.liability_weight_init@).unwrap(),
                    loan.1,
                    true,
                ) == Ok::<Seq<(Address, MarginfiAccountBalance)>, Error>(
                    final(account_with_banks).balances@,
                )
                &&& final(instructions)@.len() == old(instructions)@.len() + 1
                &&& final(instructions)@.subrange(0, old(instructions)@.len() as int) == old(
                    instructions,
                )@
                &&& final(instructions)@.last().program_id
                    == instruction_builder.programs().marginfi
                &&& instruction_builder.lending_instruction(
                    *static_addresses,
                    loan.1@,
                    loan.0,
                    *final(account_with_banks),
                    true,
                ) == Ok::<(Seq<AccountMeta>, Seq<u8>), Error>(
                    (final(instructions)@.last().accounts@, final(instructions)@.last().data@),
                )
            },
            Err(e) => {
                &&& final(instructions)@ == old(instructions)@
                &&& borrow_failure(
                    *old(account_with_banks),
                    *oracles_state,
                    *static_addresses,
                    *instruction_builder,
                    *final(account_with_banks),
                    e,
                )
            },
        },
{
    let (free_amount, _) = account_with_banks.get_total_weighted_amount(oracles_state)?;
    let (mint_to_borrow, liability_weight) = match get_best_bank_for_borrow(account_with_banks) {
        Ok(target) => (target.0, target.1.liability_weight_init),
        Err(e) => {
            return Err(e);
        },
    };
    let borrow_amount_weighted = plan_borrow(free_amount, liability_weight)?;
    let units: u64 = match borrow_amount_weighted.checked_to_u64() {
        Some(u) => u,
        None => {
            return Err(Error::MathOverflow);
        },
    };
    account_with_banks.borrow(borrow_amount_weighted, &mint_to_borrow)?;
    let ix = instruction_builder.marginfi_borrow(
        static_addresses,
        &mint_to_borrow,
        units,
        account_with_banks,
    )?;
    let ghost before = instructions@;
    instructions.push(ix);
    assert(instructions@.subrange(0, before.len() as int) =~= before);
    Ok((units, mint_to_borrow))
}

/// Whether what was borrowed has to be swapped before it goes into the
/// pool: everything but USDC has.
pub fn needs_swap(borrowed_mint: &Address) -> (r: bool)
    ensures
        r == (borrowed_mint@ != constants::mint_usdc_bytes()),
{
    !(*borrowed_mint == constants::mint_usdc())
}

/// The least amount of the pool's share token to accept for a deposit of
/// `token_a_amount`: ninety-five hundredths of it, rounded down.
pub fn minimum_pool_token_amount(token_a_amount: u64) -> (r: u64)
    ensures
        r == token_a_amount * 95 / 100,
{
    let wide: u128 = token_a_amount as u128 * 95 / 100;
    wide as u64
}

/// The deposit of `pool_supply_amount` of USDC into its pool.
pub fn create_pool_deposit_instruction(
    static_addresses: &StaticAddresses,
    instruction_builder: &InstructionBuilder,
    pool_supply_amount: u64,
) -> (r: Result<Instruction, Error>)
    ensures
        match r {
            Ok(ix) => {
                let pool = first_value(
                    static_addresses.meteora_dynamic_pools@,
                    constants::mint_usdc_bytes(),
                );
                let accounts = static_addresses.wallet_token_accounts@;
                let on_a_side = constants::mint_usdc_bytes() == pool.unwrap().a_token_mint@;
                let a_amount = if on_a_side {
                    pool_supply_amount
                } else {
                    0u64
                };
                let b_amount = if on_a_side {
                    0u64
                } else {
                    pool_supply_amount
                };
                &&& pool is Some
                &&& first_value(accounts, pool.unwrap().lp_mint@) is Some
                &&& first_value(accounts, pool.unwrap().a_token_mint@) is Some
                &&& first_value(accounts, pool.unwrap().b_token_mint@) is Some
                &&& ix.program_id == instruction_builder.programs().meteora_pools
                &&& ix.accounts@ == instruction_builder.pool_deposit_accounts(
                    pool.unwrap(),
                    first_value(accounts, pool.unwrap().lp_mint@).unwrap(),
                    first_value(accounts, pool.unwrap().a_token_mint@).unwrap(),
                    first_value(accounts, pool.unwrap().b_token_mint@).unwrap(),
                )
                &&& ix.data@ == pool_deposit_payload(
                    pool_deposit_preimage(),
                    (a_amount * 95 / 100) as u64,
                    a_amount,
                    b_amount,
                )
            },
            Err(e) => {
                let pool = first_value(
                    static_addresses.meteora_dynamic_pools@,
                    constants::mint_usdc_bytes(),
                );
                let accounts = static_addresses.wallet_token_accounts@;
                if pool is None {
                    e == Error::InvalidMeteoraPool
                } else {
                    &&& e == Error::InvalidTokenAccount
                    &&& (first_value(accounts, pool.unwrap().lp_mint@) is None || first_value(
                        accounts,
                        pool.unwrap().a_token_mint@,
                    ) is None || first_value(accounts, pool.unwrap().b_token_mint@) is None)
                }
            },
        },
{
    let usdc = constants::mint_usdc();
    let meteora_pool = static_addresses.get_meteora_pool(&usdc)?;
    let (token_a_amount, token_b_amount) = meteora_pool.get_token_for_deposit(
        pool_supply_amount,
        &usdc,
    );
    instruction_builder.meteora_pool_deposit(
        static_addresses,
        meteora_pool,
        minimum_pool_token_amount(token_a_amount),
        token_a_amount,
        token_b_amount,
    )
}

} // verus!
