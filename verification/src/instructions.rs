//! The instructions that the engine sends: deposits into and loans from the
//! lending program, deposits into a pool and into its farm.
//!
//! An instruction is made of a program, a list of accounts and a payload. The
//! payload begins with the eight bytes that name the operation, the first
//! bytes of the SHA-256 of `global:` and the operation's name; its numbers
//! follow with the lowest byte first.
use crate::account::{MarginfiAccountBalance, MarginfiAccountWithBanks};
use crate::address::Address;
use crate::addresses::{bank_at, MarginfiBank, MeteoraDynamicPool, StaticAddresses};
use crate::constants;
use crate::error::Error;
use crate::keyed::first_value;
use vstd::bytes::{spec_u64_to_le_bytes, u64_to_le_bytes};
use vstd::prelude::*;
use vstd::string::*;

verus! {

/// The SHA-256 of some bytes.
pub uninterp spec fn sha256(bytes: Seq<u8>) -> Seq<u8>;

/// Hashes bytes with `solana_sdk::hash::hash`, which is SHA-256. The result
/// depends on the bytes alone.
#[verifier::external_body]
fn sha256_of(data: &[u8]) -> (r: [u8; 32])
    ensures
        r@ == sha256(data@),
{
    solana_sdk::hash::hash(data).to_bytes()
}

/// One account of an instruction.
#[derive(Clone, Copy, Debug)]
pub struct AccountMeta {
    pub pubkey: Address,
    pub is_signer: bool,
    pub is_writable: bool,
}

impl AccountMeta {
    /// An account that the instruction may write to.
    pub fn new(pubkey: Address, is_signer: bool) -> (r: AccountMeta)
        ensures
            r == (AccountMeta { pubkey, is_signer, is_writable: true }),
    {
        AccountMeta { pubkey, is_signer, is_writable: true }
    }

    /// An account that the instruction only reads.
    pub fn new_readonly(pubkey: Address, is_signer: bool) -> (r: AccountMeta)
        ensures
            r == (AccountMeta { pubkey, is_signer, is_writable: false }),
    {
        AccountMeta { pubkey, is_signer, is_writable: false }
    }
}

/// One instruction for one program.
#[derive(Debug)]
pub struct Instruction {
    pub program_id: Address,
    pub accounts: Vec<AccountMeta>,
    pub data: Vec<u8>,
}

/// The programs that the instructions are for.
#[derive(Clone, Copy, Debug)]
pub struct ProgramIds {
    /// The lending program.
    pub marginfi: Address,
    /// The program of the pools.
    pub meteora_pools: Address,
    /// The program of the vaults under the pools.
    pub meteora_vault: Address,
}

/// The eight bytes that name an operation: the first of the SHA-256 of its
/// preimage.
pub open spec fn discriminator(preimage: Seq<u8>) -> Seq<u8> {
    sha256(preimage).subrange(0, 8)
}

/// The payload of an operation on one amount.
pub open spec fn amount_payload(preimage: Seq<u8>, amount: u64) -> Seq<u8> {
    discriminator(preimage) + spec_u64_to_le_bytes(amount)
}

/// The payload of a deposit into a pool.
pub open spec fn pool_deposit_payload(
    preimage: Seq<u8>,
    minimum_pool_token_amount: u64,
    token_a_amount: u64,
    token_b_amount: u64,
) -> Seq<u8> {
    discriminator(preimage) + spec_u64_to_le_bytes(minimum_pool_token_amount)
        + spec_u64_to_le_bytes(token_a_amount) + spec_u64_to_le_bytes(token_b_amount)
}

/// An account that may be written to.
pub open spec fn writable(pubkey: Address, is_signer: bool) -> AccountMeta {
    AccountMeta { pubkey, is_signer, is_writable: true }
}

/// An account that is only read.
pub open spec fn readonly(pubkey: Address) -> AccountMeta {
    AccountMeta { pubkey, is_signer: false, is_writable: false }
}

/// The accounts by which the lending program values the first `n`
/// positions: for every active position in a known bank, the bank and its
/// oracle, both only read.
pub open spec fn observation_accounts(
    balances: Seq<(Address, MarginfiAccountBalance)>,
    banks: Seq<(Address, MarginfiBank)>,
    n: nat,
) -> Seq<AccountMeta>
    decreases n,
{
    if n == 0 {
        Seq::empty()
    } else {
        let before = observation_accounts(balances, banks, (n - 1) as nat);
        let balance = balances[n - 1].1;
        if balance.is_active {
            match bank_at(banks, balance.bank_address@) {
                Some(bank) => before.push(readonly(bank.address)).push(
                    readonly(bank.oracle.address_of()),
                ),
                None => before,
            }
        } else {
            before
        }
    }
}

/// The preimage of the deposit into the lending program.
pub open spec fn deposit_preimage() -> Seq<u8> {
    "global:lending_account_deposit".spec_bytes()
}

/// The preimage of the loan from the lending program.
pub open spec fn borrow_preimage() -> Seq<u8> {
    "global:lending_account_borrow".spec_bytes()
}

/// The preimage of the deposit into a pool.
pub open spec fn pool_deposit_preimage() -> Seq<u8> {
    "global:add_balance_liquidity".spec_bytes()
}

/// The preimage of the deposit into a farm.
pub open spec fn farm_deposit_preimage() -> Seq<u8> {
    "global:deposit".spec_bytes()
}

/// The payload of an operation on amounts: the operation's eight bytes, then
/// each amount with the lowest byte first.
fn payload(preimage: &str, amounts: &Vec<u64>) -> (r: Vec<u8>)
    ensures
        amounts@.len() == 1 ==> r@ == amount_payload(preimage.spec_bytes(), amounts@[0]),
        amounts@.len() == 3 ==> r@ == pool_deposit_payload(
            preimage.spec_bytes(),
            amounts@[0],
            amounts@[1],
            amounts@[2],
        ),
{
    let name = InstructionBuilder::generate_discriminator(preimage);
    let mut data: Vec<u8> = Vec::new();
    let mut i: usize = 0;
    while i < 8
        invariant
            i <= 8,
            name@ == discriminator(preimage.spec_bytes()),
            data@ == name@.subrange(0, i as int),
        decreases 8 - i,
    {
        data.push(name[i]);
        assert(data@ =~= name@.subrange(0, i + 1));
        i = i + 1;
    }
    assert(data@ =~= discriminator(preimage.spec_bytes()));
    let ghost head = data@;
    let mut k: usize = 0;
    while k < amounts.len()
        invariant
            k <= amounts.len(),
            head == discriminator(preimage.spec_bytes()),
            k == 0 ==> data@ == head,
            k == 1 ==> data@ == head + spec_u64_to_le_bytes(amounts@[0]),
            k == 2 ==> data@ == head + spec_u64_to_le_bytes(amounts@[0]) + spec_u64_to_le_bytes(
                amounts@[1],
            ),
            k == 3 ==> data@ == head + spec_u64_to_le_bytes(amounts@[0]) + spec_u64_to_le_bytes(
                amounts@[1],
            ) + spec_u64_to_le_bytes(amounts@[2]),
        decreases amounts.len() - k,
    {
        let bytes = u64_to_le_bytes(amounts[k]);
        let ghost before = data@;
        let mut j: usize = 0;
        while j < bytes.len()
            invariant
                j <= bytes.len(),
                bytes@ == spec_u64_to_le_bytes(amounts@[k as int]),
                data@ == before + bytes@.subrange(0, j as int),
            decreases bytes.len() - j,
        {
            data.push(bytes[j]);
            assert(data@ =~= before + bytes@.subrange(0, j + 1));
            j = j + 1;
        }
        assert(data@ =~= before + bytes@);
        k = k + 1;
    }
    data
}

/// Makes the instructions of one wallet.
#[derive(Debug)]
pub struct InstructionBuilder {
    wallet: Address,
    programs: ProgramIds,
}

impl InstructionBuilder {
    /// The wallet that signs the instructions.
    pub closed spec fn wallet(&self) -> Address {
        self.wallet
    }

    /// The programs that the instructions are for.
    pub closed spec fn programs(&self) -> ProgramIds {
        self.programs
    }

    /// A builder for the wallet and the programs.
    pub fn new(wallet: Address, programs: ProgramIds) -> (r: InstructionBuilder)
        ensures
            r.wallet() == wallet,
            r.programs() == programs,
    {
        InstructionBuilder { wallet, programs }
    }

    /// The eight bytes that name the operation with the given preimage.
    pub fn generate_discriminator(preimage: &str) -> (r: [u8; 8])
        ensures
            r@ == discriminator(preimage.spec_bytes()),
    {
        let bytes = sha256_of(preimage.as_bytes());
        let r: [u8; 8] = [
            bytes[0],
            bytes[1],
            bytes[2],
            bytes[3],
            bytes[4],
            bytes[5],
            bytes[6],
            bytes[7],
        ];
        assert(r@ =~= bytes@.subrange(0, 8));
        r
    }

    /// The accounts of a deposit into or a loan from the bank of a mint,
    /// before those by which the positions are valued.
    pub open spec fn lending_accounts(
        &self,
        static_addresses: StaticAddresses,
        bank: MarginfiBank,
        token_account: Address,
        borrowed: bool,
    ) -> Seq<AccountMeta> {
        let head = seq![
            readonly(constants::marginfi_group_address()),
            writable(static_addresses.marginfi_account, false),
            writable(self.wallet(), true),
            writable(bank.address, false),
            writable(token_account, false),
        ];
        let middle = if borrowed {
            seq![writable(bank.liquidity_vault_authority, false)]
        } else {
            Seq::<AccountMeta>::empty()
        };
        head + middle + seq![
            writable(bank.liquidity_vault, false),
            readonly(constants::spl_token_address()),
        ]
    }

    /// The deposit or the loan of `amount` of `mint`, where the bank and the
    /// token account of the mint are known.
    pub open spec fn lending_instruction(
        &self,
        static_addresses: StaticAddresses,
        mint: Seq<u8>,
        amount: u64,
        marginfi_account: MarginfiAccountWithBanks,
        borrowed: bool,
    ) -> Result<(Seq<AccountMeta>, Seq<u8>), Error> {
        match first_value(static_addresses.marginfi_banks@, mint) {
            None => Err(Error::InvalidMarginfiBank),
            Some(bank) => match first_value(static_addresses.wallet_token_accounts@, mint) {
                None => Err(Error::InvalidTokenAccount),
                Some(token_account) => Ok(
                    (
                        self.lending_accounts(static_addresses, bank, token_account, borrowed)
                            + observation_accounts(
                            marginfi_account.balances@,
                            static_addresses.marginfi_banks@,
                            marginfi_account.balances@.len(),
                        ),
                        amount_payload(
                            if borrowed {
                                borrow_preimage()
                            } else {
                                deposit_preimage()
                            },
                            amount,
                        ),
                    ),
                ),
            },
        }
    }

    /// Adds the accounts by which the lending program values the positions.
    fn push_observation_accounts(
        static_addresses: &StaticAddresses,
        marginfi_account: &MarginfiAccountWithBanks,
        accounts: &mut Vec<AccountMeta>,
    )
        ensures
            final(accounts)@ == old(accounts)@ + observation_accounts(
                marginfi_account.balances@,
                static_addresses.marginfi_banks@,
                marginfi_account.balances@.len(),
            ),
    {
        let ghost head = accounts@;
        let mut i: usize = 0;
        assert(accounts@ =~= head + Seq::<AccountMeta>::empty());
        while i < marginfi_account.balances.len()
            invariant
                i <= marginfi_account.balances.len(),
                accounts@ == head + observation_accounts(
                    marginfi_account.balances@,
                    static_addresses.marginfi_banks@,
                    i as nat,
                ),
            decreases marginfi_account.balances.len() - i,
        {
            let balance = &marginfi_account.balances[i].1;
            let ghost before = observation_accounts(
                marginfi_account.balances@,
                static_addresses.marginfi_banks@,
                i as nat,
            );
            if balance.is_active {
                match static_addresses.get_marginfi_bank_by_bank_address(&balance.bank_address) {
                    Ok(bank) => {
                        accounts.push(AccountMeta::new_readonly(bank.address, false));
                        accounts.push(AccountMeta::new_readonly(bank.oracle.address(), false));
                        assert(accounts@ =~= head + before.push(readonly(bank.address)).push(
                            readonly(bank.oracle.address_of()),
                        ));
                    },
                    Err(_) => {},
                }
            }
            i = i + 1;
        }
    }

    /// Makes a deposit or a loan.
    fn lending(
        &self,
        static_addresses: &StaticAddresses,
        mint: &Address,
        amount: u64,
        marginfi_account: &MarginfiAccountWithBanks,
        borrowed: bool,
    ) -> (r: Result<Instruction, Error>)
        ensures
            match r {
                Ok(ix) => ix.program_id == self.programs().marginfi && self.lending_instruction(
                    *static_addresses,
                    mint@,
                    amount,
                    *marginfi_account,
                    borrowed,
                ) == Ok::<(Seq<AccountMeta>, Seq<u8>), Error>((ix.accounts@, ix.data@)),
                Err(e) => self.lending_instruction(
                    *static_addresses,
                    mint@,
                    amount,
                    *marginfi_account,
                    borrowed,
                ) == Err::<(Seq<AccountMeta>, Seq<u8>), Error>(e),
            },
    {
        let mut amounts: Vec<u64> = Vec::new();
        amounts.push(amount);
        let data = if borrowed {
            payload("global:lending_account_borrow", &amounts)
        } else {
            payload("global:lending_account_deposit", &amounts)
        };
        let bank_accounts = static_addresses.get_marginfi_bank(mint)?;
        let token_account = static_addresses.get_token_account(mint)?;
        let mut accounts: Vec<AccountMeta> = Vec::new();
        accounts.push(AccountMeta::new_readonly(constants::marginfi_group(), false));
        accounts.push(AccountMeta::new(static_addresses.marginfi_account, false));
        accounts.push(AccountMeta::new(self.wallet, true));
        accounts.push(AccountMeta::new(bank_accounts.address, false));
        accounts.push(AccountMeta::new(token_account, false));
        if borrowed {
            accounts.push(AccountMeta::new(bank_accounts.liquidity_vault_authority, false));
        }
        accounts.push(AccountMeta::new(bank_accounts.liquidity_vault, false));
        accounts.push(AccountMeta::new_readonly(constants::spl_token(), false));
        assert(accounts@ =~= self.lending_accounts(
            *static_addresses,
            *bank_accounts,
            token_account,
            borrowed,
        ));
        InstructionBuilder::push_observation_accounts(
            static_addresses,
            marginfi_account,
            &mut accounts,
        );
        Ok(Instruction { program_id: self.programs.marginfi, accounts, data })
    }

    /// The deposit of `amount` of `mint` into its bank.
    pub fn marginfi_deposit(
        &self,
        static_addresses: &StaticAddresses,
        mint: &Address,
        amount: u64,
        marginfi_account: &MarginfiAccountWithBanks,
    ) -> (r: Result<Instruction, Error>)
        ensures
            match r {
                Ok(ix) => ix.program_id == self.programs().marginfi && self.lending_instruction(
                    *static_addresses,
                    mint@,
                    amount,
                    *marginfi_account,
                    false,
                ) == Ok::<(Seq<AccountMeta>, Seq<u8>), Error>((ix.accounts@, ix.data@)),
                Err(e) => self.lending_instruction(
                    *static_addresses,
                    mint@,
                    amount,
                    *marginfi_account,
                    false,
                ) == Err::<(Seq<AccountMeta>, Seq<u8>), Error>(e),
            },
    {
        self.lending(static_addresses, mint, amount, marginfi_account, false)
    }

    /// The loan of `amount` of `mint` from its bank.
    pub fn marginfi_borrow(
        &self,
        static_addresses: &StaticAddresses,
        mint: &Address,
        amount: u64,
        marginfi_account: &MarginfiAccountWithBanks,
    ) -> (r: Result<Instruction, Error>)
        ensures
            match r {
                Ok(ix) => ix.program_id == self.programs().marginfi && self.lending_instruction(
                    *static_addresses,
                    mint@,
                    amount,
                    *marginfi_account,
                    true,
                ) == Ok::<(Seq<AccountMeta>, Seq<u8>), Error>((ix.accounts@, ix.data@)),
                Err(e) => self.lending_instruction(
                    *static_addresses,
                    mint@,
                    amount,
                    *marginfi_account,
                    true,
                ) == Err::<(Seq<AccountMeta>, Seq<u8>), Error>(e),
            },
    {
        self.lending(static_addresses, mint, amount, marginfi_account, true)
    }

    /// The accounts of a deposit into a pool.
    pub open spec fn pool_deposit_accounts(
        &self,
        pool: MeteoraDynamicPool,
        lp_token_account: Address,
        a_token_account: Address,
        b_token_account: Address,
    ) -> Seq<AccountMeta> {
        seq![
            writable(pool.address, false),
            writable(pool.lp_mint, false),
            writable(lp_token_account, false),
            writable(pool.a_vault_lp, false),
            writable(pool.b_vault_lp, false),
            writable(pool.a_vault, false),
            writable(pool.b_vault, false),
            writable(pool.vault_a_lp_mint, false),
            writable(pool.vault_b_lp_mint, false),
            writable(pool.vault_a_vault, false),
            writable(pool.vault_b_vault, false),
            writable(a_token_account, false),
            writable(b_token_account, false),
            writable(self.wallet(), true),
            readonly(self.programs().meteora_vault),
            readonly(constants::spl_token_address()),
        ]
    }

    /// The deposit of the two token amounts into a pool, for at least
    /// `minimum_pool_token_amount` of its share token. The wallet needs its
    /// token accounts for the share token and the two tokens.
    pub fn meteora_pool_deposit(
        &self,
        static_addresses: &StaticAddresses,
        pool: &MeteoraDynamicPool,
        minimum_pool_token_amount: u64,
        token_a_amount: u64,
        token_b_amount: u64,
    ) -> (r: Result<Instruction, Error>)
        ensures
            match r {
                Ok(ix) => {
                    let accounts = static_addresses.wallet_token_accounts@;
                    &&& first_value(accounts, pool.lp_mint@) is Some
                    &&& first_value(accounts, pool.a_token_mint@) is Some
                    &&& first_value(accounts, pool.b_token_mint@) is Some
                    &&& ix.program_id == self.programs().meteora_pools
                    &&& ix.accounts@ == self.pool_deposit_accounts(
                        *pool,
                        first_value(accounts, pool.lp_mint@).unwrap(),
                        first_value(accounts, pool.a_token_mint@).unwrap(),
                        first_value(accounts, pool.b_token_mint@).unwrap(),
                    )
                    &&& ix.data@ == pool_deposit_payload(
                        pool_deposit_preimage(),
                        minimum_pool_token_amount,
                        token_a_amount,
                        token_b_amount,
                    )
                },
                Err(e) => {
                    let accounts = static_addresses.wallet_token_accounts@;
                    &&& e == Error::InvalidTokenAccount
                    &&& (first_value(accounts, pool.lp_mint@) is None || first_value(
                        accounts,
                        pool.a_token_mint@,
                    ) is None || first_value(accounts, pool.b_token_mint@) is None)
                },
            },
    {
        let mut amounts: Vec<u64> = Vec::new();
        amounts.push(minimum_pool_token_amount);
        amounts.push(token_a_amount);
        amounts.push(token_b_amount);
        let data = payload("global:add_balance_liquidity", &amounts);
        let lp_token_account = static_addresses.get_token_account(&pool.lp_mint)?;
        let a_token_account = static_addresses.get_token_account(&pool.a_token_mint)?;
        let b_token_account = static_addresses.get_token_account(&pool.b_token_mint)?;
        let mut accounts: Vec<AccountMeta> = Vec::new();
        accounts.push(AccountMeta::new(pool.address, false));
        accounts.push(AccountMeta::new(pool.lp_mint, false));
        accounts.push(AccountMeta::new(lp_token_account, false));
        accounts.push(AccountMeta::new(pool.a_vault_lp, false));
        accounts.push(AccountMeta::new(pool.b_vault_lp, false));
        accounts.push(AccountMeta::new(pool.a_vault, false));
        accounts.push(AccountMeta::new(pool.b_vault, false));
        accounts.push(AccountMeta::new(pool.vault_a_lp_mint, false));
        accounts.push(AccountMeta::new(pool.vault_b_lp_mint, false));
        accounts.push(AccountMeta::new(pool.vault_a_vault, false));
        accounts.push(AccountMeta::new(pool.vault_b_vault, false));
        accounts.push(AccountMeta::new(a_token_account, false));
        accounts.push(AccountMeta::new(b_token_account, false));
        accounts.push(AccountMeta::new(self.wallet, true));
        accounts.push(AccountMeta::new_readonly(self.programs.meteora_vault, false));
        accounts.push(AccountMeta::new_readonly(constants::spl_token(), false));
        assert(accounts@ =~= self.pool_deposit_accounts(
            *pool,
            lp_token_account,
            a_token_account,
            b_token_account,
        ));
        Ok(Instruction { program_id: self.programs.meteora_pools, accounts, data })
    }

    /// The deposit of `amount` of the share token of the pool of `mint` into
    /// the farm of that pool.
    pub fn meteora_farm_deposit(
        &self,
        static_addresses: &StaticAddresses,
        mint: &Address,
        amount: u64,
    ) -> (r: Result<Instruction, Error>)
        ensures
            match r {
                Ok(ix) => {
                    let farm = first_value(static_addresses.meteora_farms@, mint@);
                    let pool = first_value(static_addresses.meteora_dynamic_pools@, mint@);
                    &&& farm is Some
                    &&& pool is Some
                    &&& first_value(
                        static_addresses.wallet_token_accounts@,
                        pool.unwrap().lp_mint@,
                    ) is Some
                    &&& ix.program_id@ == constants::meteora_farm_bytes()
                    &&& ix.data@ == amount_payload(farm_deposit_preimage(), amount)
                    &&& ix.accounts@ == seq![
                        writable(farm.unwrap().address, false),
                        writable(farm.unwrap().staking_vault, false),
                        writable(farm.unwrap().user_account, false),
                        writable(self.wallet(), true),
                        writable(
                            first_value(
                                static_addresses.wallet_token_accounts@,
                                pool.unwrap().lp_mint@,
                            ).unwrap(),
                            false,
                        ),
                        readonly(constants::spl_token_address()),
                    ]
                },
                Err(e) => {
                    let farm = first_value(static_addresses.meteora_farms@, mint@);
                    let pool = first_value(static_addresses.meteora_dynamic_pools@, mint@);
                    if farm is None {
                        e == Error::InvalidMeteoraFarm
                    } else if pool is None {
                        e == Error::InvalidMeteoraPool
                    } else {
                        e == Error::InvalidTokenAccount && first_value(
                            static_addresses.wallet_token_accounts@,
                            pool.unwrap().lp_mint@,
                        ) is None
                    }
                },
            },
    {
        let mut amounts: Vec<u64> = Vec::new();
        amounts.push(amount);
        let data = payload("global:deposit", &amounts);
        let farm = static_addresses.get_meteora_farm(mint)?;
        let pool = static_addresses.get_meteora_pool(mint)?;
        let lp_token_account = static_addresses.get_token_account(&pool.lp_mint)?;
        let mut accounts: Vec<AccountMeta> = Vec::new();
        accounts.push(AccountMeta::new(farm.address, false));
        accounts.push(AccountMeta::new(farm.staking_vault, false));
        accounts.push(AccountMeta::new(farm.user_account, false));
        accounts.push(AccountMeta::new(self.wallet, true));
        accounts.push(AccountMeta::new(lp_token_account, false));
        accounts.push(AccountMeta::new_readonly(constants::spl_token(), false));
        Ok(Instruction { program_id: constants::meteora_farm(), accounts, data })
    }
}

} // verus!
