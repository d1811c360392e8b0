//! The addresses that one wallet works with: its token accounts, its margin
//! account, and what belongs to the banks, the pools and the farms.
use crate::address::Address;
use crate::bank::OnChainBank;
use crate::constants;
use crate::error::Error;
use crate::keyed::{find, first_value};
use crate::oracle_cache::OracleSetup;
use vstd::prelude::*;

verus! {

/// The address that a program derives from seeds: the first address off the
/// curve that the seeds, a bump from 255 downward and the program give.
/// Nothing where the seeds are too many or too long, or no bump is found.
pub uninterp spec fn program_address(seeds: Seq<Seq<u8>>, program: Seq<u8>) -> Option<Seq<u8>>;

/// The seeds of a list, each as its bytes.
pub open spec fn seeds_of(seeds: Seq<Vec<u8>>) -> Seq<Seq<u8>> {
    Seq::new(seeds.len(), |i: int| seeds[i]@)
}

/// Derives a program address with
/// `anchor_lang::prelude::Pubkey::try_find_program_address`, which hashes the
/// seeds, a bump and the program, tries the bumps from 255 downward, and
/// gives nothing where no bump leads off the curve or the seeds are not
/// acceptable. The result depends on the seeds and the program alone.
#[verifier::external_body]
fn try_find_program_address(seeds: &Vec<Vec<u8>>, program_id: &Address) -> (r: Option<Address>)
    ensures
        match r {
            Some(address) => program_address(seeds_of(seeds@), program_id@) == Some(address@),
            None => program_address(seeds_of(seeds@), program_id@) is None,
        },
{
    let slices: Vec<&[u8]> = seeds.iter().map(|seed| seed.as_slice()).collect();
    let program = anchor_lang::prelude::Pubkey::new_from_array(program_id.bytes);
    match anchor_lang::prelude::Pubkey::try_find_program_address(&slices, &program) {
        Some((key, _)) => Some(Address { bytes: key.to_bytes() }),
        None => None,
    }
}

/// The bytes of an address, as a seed.
pub fn seed_of(address: &Address) -> (r: Vec<u8>)
    ensures
        r@ == address@,
{
    let mut seed: Vec<u8> = Vec::new();
    let mut i: usize = 0;
    while i < 32
        invariant
            i <= 32,
            seed@ == address@.subrange(0, i as int),
        decreases 32 - i,
    {
        seed.push(address.bytes[i]);
        assert(seed@ =~= address@.subrange(0, i + 1));
        i = i + 1;
    }
    assert(seed@ =~= address@);
    seed
}

/// The address that `program_id` derives from the seeds, or `error` where
/// there is none.
pub fn find_program_address(seeds: &Vec<Vec<u8>>, program_id: &Address, error: Error) -> (r: Result<
    Address,
    Error,
>)
    ensures
        match r {
            Ok(address) => program_address(seeds_of(seeds@), program_id@) == Some(address@),
            Err(e) => program_address(seeds_of(seeds@), program_id@) is None && e == error,
        },
{
    match try_find_program_address(seeds, program_id) {
        Some(address) => Ok(address),
        None => Err(error),
    }
}

/// The token account that a wallet has for a mint: the address that the
/// program of associated token accounts derives from the wallet, the token
/// program and the mint.
pub open spec fn token_account_of(wallet: Seq<u8>, mint: Seq<u8>) -> Option<Seq<u8>> {
    program_address(
        seq![wallet, constants::spl_token_bytes(), mint],
        constants::associated_token_bytes(),
    )
}

/// The token account that the wallet has for the mint.
pub fn associated_token_account(wallet: &Address, mint: &Address) -> (r: Result<Address, Error>)
    ensures
        match r {
            Ok(address) => token_account_of(wallet@, mint@) == Some(address@),
            Err(e) => token_account_of(wallet@, mint@) is None && e == Error::InvalidTokenAccount,
        },
{
    let mut seeds: Vec<Vec<u8>> = Vec::new();
    seeds.push(seed_of(wallet));
    seeds.push(seed_of(&constants::spl_token()));
    seeds.push(seed_of(mint));
    assert(seeds_of(seeds@) =~= seq![wallet@, constants::spl_token_bytes(), mint@]);
    find_program_address(&seeds, &constants::associated_token(), Error::InvalidTokenAccount)
}

/// The oracle of a bank, by its format.
#[derive(Clone, Copy, Debug)]
pub enum MarginfiBankOracle {
    Pyth(Address),
    Switchboard(Address),
}

impl MarginfiBankOracle {
    /// The address of the oracle.
    pub open spec fn address_of(&self) -> Address {
        match *self {
            MarginfiBankOracle::Pyth(a) => a,
            MarginfiBankOracle::Switchboard(a) => a,
        }
    }

    /// The address of the oracle.
    pub fn address(&self) -> (r: Address)
        ensures
            r == self.address_of(),
    {
        match self {
            MarginfiBankOracle::Pyth(address) => *address,
            MarginfiBankOracle::Switchboard(address) => *address,
        }
    }
}

/// The addresses that belong to one bank.
#[derive(Clone, Copy, Debug)]
pub struct MarginfiBank {
    pub address: Address,
    pub liquidity_vault: Address,
    pub liquidity_vault_authority: Address,
    pub oracle: MarginfiBankOracle,
}

/// The addresses that belong to one pool and to its two vaults.
#[derive(Clone, Copy, Debug)]
pub struct MeteoraDynamicPool {
    pub address: Address,
    pub lp_mint: Address,
    pub a_vault: Address,
    pub b_vault: Address,
    pub a_vault_lp: Address,
    pub b_vault_lp: Address,
    pub vault_a_vault: Address,
    pub vault_b_vault: Address,
    pub vault_a_lp_mint: Address,
    pub vault_b_lp_mint: Address,
    pub a_token_mint: Address,
    pub b_token_mint: Address,
}

impl MeteoraDynamicPool {
    /// An amount of `mint` as the amounts of the two tokens of the pool: on
    /// the side of the first token where the mint is that token, else on the
    /// side of the second.
    pub fn get_token_for_deposit(&self, amount: u64, mint: &Address) -> (r: (u64, u64))
        ensures
            r == (if mint@ == self.a_token_mint@ {
                (amount, 0u64)
            } else {
                (0u64, amount)
            }),
    {
        if *mint == self.a_token_mint {
            (amount, 0)
        } else {
            (0, amount)
        }
    }
}

/// The addresses that belong to one farm.
#[derive(Clone, Copy, Debug)]
pub struct MeteoraFarmMeta {
    pub address: Address,
    pub staking_vault: Address,
    pub user_account: Address,
}

/// A pool as it is read from the chain.
#[derive(Clone, Copy, Debug)]
pub struct OnChainPool {
    pub lp_mint: Address,
    pub token_a_mint: Address,
    pub token_b_mint: Address,
    pub a_vault: Address,
    pub b_vault: Address,
    pub a_vault_lp: Address,
    pub b_vault_lp: Address,
}

/// A vault as it is read from the chain.
#[derive(Clone, Copy, Debug)]
pub struct OnChainVault {
    pub token_vault: Address,
    pub lp_mint: Address,
}

/// The pools and the vaults that were read from the chain, each under its
/// address.
#[derive(Debug)]
pub struct MeteoraPoolsAndVaults {
    pub pools: Vec<(Address, OnChainPool)>,
    pub vaults: Vec<(Address, OnChainVault)>,
}

/// The seed of the authority over a bank's liquidity vault.
pub open spec fn liquidity_vault_authority_seed() -> Seq<u8> {
    seq![
        108u8, 105u8, 113u8, 117u8, 105u8, 100u8, 105u8, 116u8, 121u8, 95u8,
        118u8, 97u8, 117u8, 108u8, 116u8, 95u8, 97u8, 117u8, 116u8, 104u8
    ]
}

/// The seed of a farm's staking vault.
pub open spec fn staking_seed() -> Seq<u8> {
    seq![115u8, 116u8, 97u8, 107u8, 105u8, 110u8, 103u8]
}

/// The addresses of a bank that is read from the chain, under `program`.
/// Nothing for a bank without an oracle format, or without an authority
/// over its vault.
pub open spec fn bank_addresses(
    bank_address: Address,
    bank: OnChainBank,
    program: Seq<u8>,
) -> Option<(Seq<u8>, MarginfiBankOracle)> {
    let oracle = match bank.oracle_setup {
        OracleSetup::PythEma => Some(MarginfiBankOracle::Pyth(bank.oracle_keys[0])),
        OracleSetup::SwitchboardV2 => Some(MarginfiBankOracle::Switchboard(bank.oracle_keys[0])),
        OracleSetup::Unset => None,
    };
    match (
        oracle,
        program_address(seq![liquidity_vault_authority_seed(), bank_address@], program),
    ) {
        (Some(o), Some(authority)) => Some((authority, o)),
        _ => None,
    }
}

/// The input mint of a pool: USDC for the pool of acUSD and USDC.
pub open spec fn pool_input_mint(pool: Seq<u8>) -> Option<Seq<u8>> {
    if pool == constants::meteora_acusd_usdc_pool_bytes() {
        Some(constants::mint_usdc_bytes())
    } else {
        None
    }
}

/// The error with which a pool is refused: `InvalidMeteoraPool` where it is
/// not known or one of its vaults is not among the given ones, and
/// `InvalidTokenAccount` where the wallet has no token account for one of
/// its tokens or for its share token. Nothing for a pool that is taken.
pub open spec fn pool_failure(
    wallet: Seq<u8>,
    pool: (Address, OnChainPool),
    vaults: Seq<(Address, OnChainVault)>,
) -> Option<Error> {
    if pool_input_mint(pool.0@) is None || first_value(vaults, pool.1.a_vault@) is None
        || first_value(vaults, pool.1.b_vault@) is None {
        Some(Error::InvalidMeteoraPool)
    } else if token_account_of(wallet, pool.1.token_a_mint@) is None || token_account_of(
        wallet,
        pool.1.token_b_mint@,
    ) is None || token_account_of(wallet, pool.1.lp_mint@) is None {
        Some(Error::InvalidTokenAccount)
    } else {
        None
    }
}

/// Whether pool `i` is the first of the pools that is refused.
pub open spec fn is_first_refused(
    wallet: Seq<u8>,
    pools: Seq<(Address, OnChainPool)>,
    vaults: Seq<(Address, OnChainVault)>,
    i: int,
) -> bool {
    &&& 0 <= i < pools.len()
    &&& pool_failure(wallet, pools[i], vaults) is Some
    &&& forall|j: int| 0 <= j < i ==> pool_failure(wallet, #[trigger] pools[j], vaults) is None
}

/// Whether an entry of the list of pools is that of the given pool, with
/// what its two vaults hold.
pub open spec fn pool_entry(
    entry: (Address, MeteoraDynamicPool),
    pool: (Address, OnChainPool),
    vaults: Seq<(Address, OnChainVault)>,
) -> bool {
    &&& pool_input_mint(pool.0@) == Some(entry.0@)
    &&& entry.1.address == pool.0
    &&& entry.1.lp_mint == pool.1.lp_mint
    &&& entry.1.a_vault == pool.1.a_vault
    &&& entry.1.b_vault == pool.1.b_vault
    &&& entry.1.a_vault_lp == pool.1.a_vault_lp
    &&& entry.1.b_vault_lp == pool.1.b_vault_lp
    &&& entry.1.a_token_mint == pool.1.token_a_mint
    &&& entry.1.b_token_mint == pool.1.token_b_mint
    &&& match (first_value(vaults, pool.1.a_vault@), first_value(vaults, pool.1.b_vault@)) {
        (Some(a), Some(b)) => {
            &&& entry.1.vault_a_vault == a.token_vault
            &&& entry.1.vault_b_vault == b.token_vault
            &&& entry.1.vault_a_lp_mint == a.lp_mint
            &&& entry.1.vault_b_lp_mint == b.lp_mint
        },
        _ => false,
    }
}

/// Whether bank `i` is the first bank at the address.
pub open spec fn is_first_bank_at(
    banks: Seq<(Address, MarginfiBank)>,
    address: Seq<u8>,
    i: int,
) -> bool {
    &&& 0 <= i < banks.len()
    &&& banks[i].1.address@ == address
    &&& forall|j: int| 0 <= j < i ==> (#[trigger] banks[j]).1.address@ != address
}

/// The first bank with the address.
pub open spec fn bank_at(banks: Seq<(Address, MarginfiBank)>, address: Seq<u8>) -> Option<
    MarginfiBank,
> {
    if exists|i: int| is_first_bank_at(banks, address, i) {
        Some(banks[choose|i: int| is_first_bank_at(banks, address, i)].1)
    } else {
        None
    }
}

/// All the addresses of one wallet's work.
#[derive(Debug)]
pub struct StaticAddresses {
    /// The token accounts of the wallet, each under its mint.
    pub wallet_token_accounts: Vec<(Address, Address)>,
    pub marginfi_account: Address,
    /// The banks, each under its mint.
    pub marginfi_banks: Vec<(Address, MarginfiBank)>,
    /// The pools, each under its input mint.
    pub meteora_dynamic_pools: Vec<(Address, MeteoraDynamicPool)>,
    /// The farms, each under the input mint of its pool.
    pub meteora_farms: Vec<(Address, MeteoraFarmMeta)>,
}

impl StaticAddresses {
    /// Whether some token account is listed under the mint with this
    /// address.
    pub open spec fn lists_token_account(&self, mint: Seq<u8>, account: Seq<u8>) -> bool {
        exists|i: int|
            0 <= i < self.wallet_token_accounts@.len() && (
            #[trigger] self.wallet_token_accounts@[i]).0@ == mint
                && self.wallet_token_accounts@[i].1@ == account
    }

    /// Whether the wallet's token accounts for the two tokens and the
    /// share token of a pool are listed.
    pub open spec fn has_token_accounts_of(&self, wallet: Seq<u8>, pool: OnChainPool) -> bool {
        &&& token_account_of(wallet, pool.token_a_mint@) is Some
        &&& token_account_of(wallet, pool.token_b_mint@) is Some
        &&& token_account_of(wallet, pool.lp_mint@) is Some
        &&& self.lists_token_account(
            pool.token_a_mint@,
            token_account_of(wallet, pool.token_a_mint@).unwrap(),
        )
        &&& self.lists_token_account(
            pool.token_b_mint@,
            token_account_of(wallet, pool.token_b_mint@).unwrap(),
        )
        &&& self.lists_token_account(pool.lp_mint@, token_account_of(wallet, pool.lp_mint@).unwrap())
    }

    /// The addresses of a wallet that has the token accounts of the four
    /// mints it starts from: bSOL, USDC, UXD and USDT, in this order.
    pub fn new(wallet: &Address) -> (r: Result<StaticAddresses, Error>)
        ensures
            match r {
                Ok(s) => {
                    &&& s.wallet_token_accounts@.len() == 4
                    &&& s.wallet_token_accounts@[0].0@ == constants::mint_bsol_bytes()
                    &&& s.wallet_token_accounts@[1].0@ == constants::mint_usdc_bytes()
                    &&& s.wallet_token_accounts@[2].0@ == constants::mint_uxd_bytes()
                    &&& s.wallet_token_accounts@[3].0@ == constants::mint_usdt_bytes()
                    &&& forall|i: int|
                        0 <= i < 4 ==> token_account_of(
                            wallet@,
                            (#[trigger] s.wallet_token_accounts@[i]).0@,
                        ) == Some(s.wallet_token_accounts@[i].1@)
                    &&& s.marginfi_account@ == Seq::new(32, |i: int| 0u8)
                    &&& s.marginfi_banks@.len() == 0
                    &&& s.meteora_dynamic_pools@.len() == 0
                    &&& s.meteora_farms@.len() == 0
                },
                Err(e) => e == Error::InvalidTokenAccount && (token_account_of(
                    wallet@,
                    constants::mint_bsol_bytes(),
                ) is None || token_account_of(wallet@, constants::mint_usdc_bytes()) is None
                    || token_account_of(wallet@, constants::mint_uxd_bytes()) is None
                    || token_account_of(wallet@, constants::mint_usdt_bytes()) is None),
            },
    {
        let mut token_accounts: Vec<(Address, Address)> = Vec::new();
        let bsol = constants::mint_bsol();
        token_accounts.push((bsol, associated_token_account(wallet, &bsol)?));
        let usdc = constants::mint_usdc();
        token_accounts.push((usdc, associated_token_account(wallet, &usdc)?));
        let uxd = constants::mint_uxd();
        token_accounts.push((uxd, associated_token_account(wallet, &uxd)?));
        let usdt = constants::mint_usdt();
        token_accounts.push((usdt, associated_token_account(wallet, &usdt)?));
        Ok(
            StaticAddresses {
                wallet_token_accounts: token_accounts,
                marginfi_account: Address::zero(),
                marginfi_banks: Vec::new(),
                meteora_dynamic_pools: Vec::new(),
                meteora_farms: Vec::new(),
            },
        )
    }

    /// The same addresses with the margin account set.
    pub fn set_marginfi_account(self, marginfi_account: Address) -> (r: StaticAddresses)
        ensures
            r.marginfi_account == marginfi_account,
            r.wallet_token_accounts == self.wallet_token_accounts,
            r.marginfi_banks == self.marginfi_banks,
            r.meteora_dynamic_pools == self.meteora_dynamic_pools,
            r.meteora_farms == self.meteora_farms,
    {
        let mut s = self;
        s.marginfi_account = marginfi_account;
        s
    }

    /// The same addresses with the given banks added, each under its mint,
    /// in their order. `marginfi_program` is the lending program, which
    /// derives the authority over each bank's liquidity vault. A bank
    /// without an oracle format, or without such an authority, is an error.
    pub fn set_marginfi_banks(
        self,
        banks: &Vec<(Address, OnChainBank)>,
        marginfi_program: &Address,
    ) -> (r: Result<StaticAddresses, Error>)
        ensures
            match r {
                Ok(s) => {
                    &&& s.marginfi_banks@.len() == self.marginfi_banks@.len() + banks@.len()
                    &&& s.marginfi_banks@.subrange(0, self.marginfi_banks@.len() as int)
                        == self.marginfi_banks@
                    &&& forall|i: int|
                        0 <= i < banks@.len() ==> {
                            let added = #[trigger] s.marginfi_banks@[self.marginfi_banks@.len() + i];
                            &&& added.0 == banks@[i].1.mint
                            &&& added.1.address == banks@[i].0
                            &&& added.1.liquidity_vault == banks@[i].1.liquidity_vault
                            &&& bank_addresses(banks@[i].0, banks@[i].1, marginfi_program@)
                                == Some((added.1.liquidity_vault_authority@, added.1.oracle))
                        }
                    &&& s.wallet_token_accounts == self.wallet_token_accounts
                    &&& s.marginfi_account == self.marginfi_account
                    &&& s.meteora_dynamic_pools == self.meteora_dynamic_pools
                    &&& s.meteora_farms == self.meteora_farms
                },
                Err(e) => e == Error::InvalidMarginfiBank && exists|i: int|
                    0 <= i < banks@.len() && bank_addresses(
                        (#[trigger] banks@[i]).0,
                        banks@[i].1,
                        marginfi_program@,
                    ) is None,
            },
    {
        let mut s = self;
        let ghost before = s.marginfi_banks@;
        let mut i: usize = 0;
        while i < banks.len()
            invariant
                i <= banks.len(),
                before == self.marginfi_banks@,
                s.marginfi_banks@.len() == before.len() + i,
                s.marginfi_banks@.subrange(0, before.len() as int) == before,
                forall|j: int|
                    0 <= j < i ==> {
                        let added = #[trigger] s.marginfi_banks@[before.len() + j];
                        &&& added.0 == banks@[j].1.mint
                        &&& added.1.address == banks@[j].0
                        &&& added.1.liquidity_vault == banks@[j].1.liquidity_vault
                        &&& bank_addresses(banks@[j].0, banks@[j].1, marginfi_program@) == Some(
                            (added.1.liquidity_vault_authority@, added.1.oracle),
                        )
                    },
                s.wallet_token_accounts == self.wallet_token_accounts,
                s.marginfi_account == self.marginfi_account,
                s.meteora_dynamic_pools == self.meteora_dynamic_pools,
                s.meteora_farms == self.meteora_farms,
            decreases banks.len() - i,
        {
            let bank_address: Address = banks[i].0;
            let bank: OnChainBank = banks[i].1;
            let oracle = match bank.oracle_setup {
                OracleSetup::PythEma => MarginfiBankOracle::Pyth(bank.oracle_keys[0]),
                OracleSetup::SwitchboardV2 => MarginfiBankOracle::Switchboard(bank.oracle_keys[0]),
                OracleSetup::Unset => {
                    return Err(Error::InvalidMarginfiBank);
                },
            };
            let mut seeds: Vec<Vec<u8>> = Vec::new();
            seeds.push(liquidity_vault_authority_seed_bytes());
            seeds.push(seed_of(&bank_address));
            assert(seeds_of(seeds@) =~= seq![liquidity_vault_authority_seed(), bank_address@]);
            let liquidity_vault_authority = find_program_address(
                &seeds,
                marginfi_program,
                Error::InvalidMarginfiBank,
            )?;
            let ghost old_banks = s.marginfi_banks@;
            s.marginfi_banks.push(
                (
                    bank.mint,
                    MarginfiBank {
                        address: bank_address,
                        liquidity_vault: bank.liquidity_vault,
                        liquidity_vault_authority,
                        oracle,
                    },
                ),
            );
            proof {
                assert(s.marginfi_banks@.subrange(0, before.len() as int) =~= old_banks.subrange(
                    0,
                    before.len() as int,
                ));
                assert forall|j: int| 0 <= j < i + 1 implies {
                    let added = #[trigger] s.marginfi_banks@[before.len() + j];
                    &&& added.0 == banks@[j].1.mint
                    &&& added.1.address == banks@[j].0
                    &&& added.1.liquidity_vault == banks@[j].1.liquidity_vault
                    &&& bank_addresses(banks@[j].0, banks@[j].1, marginfi_program@) == Some(
                        (added.1.liquidity_vault_authority@, added.1.oracle),
                    )
                } by {
                    if j < i {
                        assert(s.marginfi_banks@[before.len() + j] == old_banks[before.len() + j]);
                    }
                }
            }
            i = i + 1;
        }
        Ok(s)
    }

    /// Adds the wallet's token account for the mint, unless it is listed
    /// under the mint already.
    pub fn add_unique_wallet_token_account(&mut self, mint: &Address, wallet: &Address) -> (r:
        Result<(), Error>)
        ensures
            final(self).marginfi_account == old(self).marginfi_account,
            final(self).marginfi_banks == old(self).marginfi_banks,
            final(self).meteora_dynamic_pools == old(self).meteora_dynamic_pools,
            final(self).meteora_farms == old(self).meteora_farms,
            match r {
                Ok(()) => {
                    let account = token_account_of(wallet@, mint@);
                    &&& account is Some
                    &&& final(self).lists_token_account(mint@, account.unwrap())
                    &&& if old(self).lists_token_account(mint@, account.unwrap()) {
                        final(self).wallet_token_accounts@ == old(self).wallet_token_accounts@
                    } else {
                        &&& final(self).wallet_token_accounts@.len() == old(self).wallet_token_accounts@.len() + 1
                        &&& final(self).wallet_token_accounts@.subrange(
                            0,
                            old(self).wallet_token_accounts@.len() as int,
                        ) == old(self).wallet_token_accounts@
                    }
                },
                Err(e) => {
                    &&& e == Error::InvalidTokenAccount
                    &&& token_account_of(wallet@, mint@) is None
                    &&& final(self).wallet_token_accounts@ == old(self).wallet_token_accounts@
                },
            },
    {
        let token_account = associated_token_account(wallet, mint)?;
        let mut i: usize = 0;
        while i < self.wallet_token_accounts.len()
            invariant
                i <= self.wallet_token_accounts.len(),
                *self == *old(self),
                token_account_of(wallet@, mint@) == Some(token_account@),
                forall|j: int|
                    0 <= j < i ==> !((#[trigger] self.wallet_token_accounts@[j]).0@ == mint@
                        && self.wallet_token_accounts@[j].1@ == token_account@),
            decreases self.wallet_token_accounts.len() - i,
        {
            if self.wallet_token_accounts[i].0 == *mint && self.wallet_token_accounts[i].1
                == token_account {
                proof {
                    assert(self.wallet_token_accounts@[i as int].0@ == mint@);
                    assert(self.lists_token_account(mint@, token_account@));
                }
                return Ok(());
            }
            i = i + 1;
        }
        let ghost before = self.wallet_token_accounts@;
        self.wallet_token_accounts.push((*mint, token_account));
        proof {
            assert(self.wallet_token_accounts@[before.len() as int].0@ == mint@);
            assert(self.lists_token_account(mint@, token_account@));
            assert(self.wallet_token_accounts@.subrange(0, before.len() as int) =~= before);
            if old(self).lists_token_account(mint@, token_account@) {
                let k = choose|k: int|
                    0 <= k < before.len() && (#[trigger] before[k]).0@ == mint@ && before[k].1@
                        == token_account@;
                assert(false);
            }
        }
        Ok(())
    }

    /// The same addresses with the given pools added, each under its input
    /// mint, in their order, and with the wallet's token accounts for the
    /// two tokens and the share token of each pool. A pool that is not
    /// known, or whose vaults are not among the given ones, is an error.
    pub fn set_meteora_pools_and_vaults(
        self,
        wallet: &Address,
        pools_and_vaults: &MeteoraPoolsAndVaults,
    ) -> (r: Result<StaticAddresses, Error>)
        ensures
            match r {
                Ok(s) => {
                    &&& s.meteora_dynamic_pools@.len() == self.meteora_dynamic_pools@.len()
                        + pools_and_vaults.pools@.len()
                    &&& s.meteora_dynamic_pools@.subrange(
                        0,
                        self.meteora_dynamic_pools@.len() as int,
                    ) == self.meteora_dynamic_pools@
                    &&& forall|i: int|
                        0 <= i < pools_and_vaults.pools@.len() ==> pool_entry(
                            #[trigger] s.meteora_dynamic_pools@[self.meteora_dynamic_pools@.len()
                                + i],
                            pools_and_vaults.pools@[i],
                            pools_and_vaults.vaults@,
                        )
                    &&& forall|i: int|
                        0 <= i < pools_and_vaults.pools@.len() ==> s.has_token_accounts_of(
                            wallet@,
                            (#[trigger] pools_and_vaults.pools@[i]).1,
                        )
                    &&& s.wallet_token_accounts@.len() >= self.wallet_token_accounts@.len()
                    &&& s.wallet_token_accounts@.subrange(
                        0,
                        self.wallet_token_accounts@.len() as int,
                    ) == self.wallet_token_accounts@
                    &&& s.marginfi_account == self.marginfi_account
                    &&& s.marginfi_banks == self.marginfi_banks
                    &&& s.meteora_farms == self.meteora_farms
                },
                Err(e) => exists|i: int| #[trigger]
                    is_first_refused(wallet@, pools_and_vaults.pools@, pools_and_vaults.vaults@, i)
                        && pool_failure(
                        wallet@,
                        pools_and_vaults.pools@[i],
                        pools_and_vaults.vaults@,
                    ) == Some(e),
            },
    {
        let mut s = self;
        let ghost pools_before = s.meteora_dynamic_pools@;
        let ghost accounts_before = s.wallet_token_accounts@;
        let mut i: usize = 0;
        while i < pools_and_vaults.pools.len()
            invariant
                i <= pools_and_vaults.pools.len(),
                pools_before == self.meteora_dynamic_pools@,
                accounts_before == self.wallet_token_accounts@,
                s.meteora_dynamic_pools@.len() == pools_before.len() + i,
                s.meteora_dynamic_pools@.subrange(0, pools_before.len() as int) == pools_before,
                forall|j: int|
                    0 <= j < i ==> pool_entry(
                        #[trigger] s.meteora_dynamic_pools@[pools_before.len() + j],
                        pools_and_vaults.pools@[j],
                        pools_and_vaults.vaults@,
                    ),
                forall|j: int|
                    0 <= j < i ==> s.has_token_accounts_of(
                        wallet@,
                        (#[trigger] pools_and_vaults.pools@[j]).1,
                    ),
                forall|j: int|
                    0 <= j < i ==> pool_failure(
                        wallet@,
                        #[trigger] pools_and_vaults.pools@[j],
                        pools_and_vaults.vaults@,
                    ) is None,
                s.wallet_token_accounts@.len() >= accounts_before.len(),
                s.wallet_token_accounts@.subrange(0, accounts_before.len() as int)
                    == accounts_before,
                s.marginfi_account == self.marginfi_account,
                s.marginfi_banks == self.marginfi_banks,
                s.meteora_farms == self.meteora_farms,
            decreases pools_and_vaults.pools.len() - i,
        {
            let pool_address: Address = pools_and_vaults.pools[i].0;
            let pool: OnChainPool = pools_and_vaults.pools[i].1;
            let ghost refused = is_first_refused(
                wallet@,
                pools_and_vaults.pools@,
                pools_and_vaults.vaults@,
                i as int,
            );
            let input_mint = match StaticAddresses::get_meteora_pool_input_mint(&pool_address) {
                Ok(mint) => mint,
                Err(e) => {
                    assert(refused);
                    return Err(e);
                },
            };
            let a_vault: OnChainVault = match find(&pools_and_vaults.vaults, &pool.a_vault) {
                Some(v) => *v,
                None => {
                    assert(refused);
                    return Err(Error::InvalidMeteoraPool);
                },
            };
            let b_vault: OnChainVault = match find(&pools_and_vaults.vaults, &pool.b_vault) {
                Some(v) => *v,
                None => {
                    assert(refused);
                    return Err(Error::InvalidMeteoraPool);
                },
            };
            let ghost s0 = s;
            match s.add_unique_wallet_token_account(&pool.token_a_mint, wallet) {
                Ok(()) => {},
                Err(e) => {
                    assert(refused);
                    return Err(e);
                },
            }
            let ghost s1 = s;
            match s.add_unique_wallet_token_account(&pool.token_b_mint, wallet) {
                Ok(()) => {},
                Err(e) => {
                    assert(refused);
                    return Err(e);
                },
            }
            let ghost s2 = s;
            match s.add_unique_wallet_token_account(&pool.lp_mint, wallet) {
                Ok(()) => {},
                Err(e) => {
                    assert(refused);
                    return Err(e);
                },
            }
            proof {
                let a0 = s0.wallet_token_accounts@;
                let a1 = s1.wallet_token_accounts@;
                let a2 = s2.wallet_token_accounts@;
                let a3 = s.wallet_token_accounts@;
                assert(a1.subrange(0, a0.len() as int) =~= a0);
                assert(a2.subrange(0, a1.len() as int) =~= a1);
                assert(a3.subrange(0, a2.len() as int) =~= a2);
                assert(a3.subrange(0, a1.len() as int) =~= a1) by {
                    assert forall|k: int| 0 <= k < a1.len() implies a3[k] == a1[k] by {
                        assert(a3.subrange(0, a2.len() as int)[k] == a2[k]);
                        assert(a2.subrange(0, a1.len() as int)[k] == a1[k]);
                    }
                }
                assert(a3.subrange(0, a0.len() as int) =~= a0) by {
                    assert forall|k: int| 0 <= k < a0.len() implies a3[k] == a0[k] by {
                        assert(a3.subrange(0, a1.len() as int)[k] == a1[k]);
                        assert(a1.subrange(0, a0.len() as int)[k] == a0[k]);
                    }
                }
                lemma_listing_stays(s1, s2);
                lemma_listing_stays(s2, s);
                lemma_listing_stays(s1, s);
                lemma_listing_stays(s0, s);
                assert(s.has_token_accounts_of(wallet@, pool));
                assert forall|j: int| 0 <= j < i implies s.has_token_accounts_of(
                    wallet@,
                    (#[trigger] pools_and_vaults.pools@[j]).1,
                ) by {
                    assert(s0.has_token_accounts_of(wallet@, pools_and_vaults.pools@[j].1));
                }
                assert(s.wallet_token_accounts@.subrange(0, accounts_before.len() as int)
                    =~= s0.wallet_token_accounts@.subrange(0, accounts_before.len() as int)) by {
                    assert(s0.wallet_token_accounts@ =~= s.wallet_token_accounts@.subrange(
                        0,
                        s0.wallet_token_accounts@.len() as int,
                    ));
                }
            }
            let ghost old_pools = s.meteora_dynamic_pools@;
            s.meteora_dynamic_pools.push(
                (
                    input_mint,
                    MeteoraDynamicPool {
                        address: pool_address,
                        lp_mint: pool.lp_mint,
                        a_vault: pool.a_vault,
                        b_vault: pool.b_vault,
                        a_vault_lp: pool.a_vault_lp,
                        b_vault_lp: pool.b_vault_lp,
                        a_token_mint: pool.token_a_mint,
                        b_token_mint: pool.token_b_mint,
                        vault_a_vault: a_vault.token_vault,
                        vault_b_vault: b_vault.token_vault,
                        vault_a_lp_mint: a_vault.lp_mint,
                        vault_b_lp_mint: b_vault.lp_mint,
                    },
                ),
            );
            proof {
                assert(s.meteora_dynamic_pools@.subrange(0, pools_before.len() as int)
                    =~= old_pools.subrange(0, pools_before.len() as int));
                assert forall|j: int| 0 <= j < i + 1 implies pool_entry(
                    #[trigger] s.meteora_dynamic_pools@[pools_before.len() + j],
                    pools_and_vaults.pools@[j],
                    pools_and_vaults.vaults@,
                ) by {
                    if j < i {
                        assert(s.meteora_dynamic_pools@[pools_before.len() + j]
                            == old_pools[pools_before.len() + j]);
                    }
                }
            }
            i = i + 1;
        }
        Ok(s)
    }

    /// The same addresses with the farm of the pool of acUSD and USDC added
    /// under USDC, with the wallet's account in the farm and the farm's
    /// staking vault.
    pub fn set_meteora_farms(self, wallet: &Address) -> (r: Result<StaticAddresses, Error>)
        ensures
            match r {
                Ok(s) => {
                    let farm = constants::meteora_acusd_usdc_farm_bytes();
                    let program = constants::meteora_farm_bytes();
                    &&& s.meteora_farms@.len() == self.meteora_farms@.len() + 1
                    &&& s.meteora_farms@.subrange(0, self.meteora_farms@.len() as int)
                        == self.meteora_farms@
                    &&& s.meteora_farms@.last().0@ == constants::mint_usdc_bytes()
                    &&& s.meteora_farms@.last().1.address@ == farm
                    &&& program_address(seq![wallet@, farm], program) == Some(
                        s.meteora_farms@.last().1.user_account@,
                    )
                    &&& program_address(seq![staking_seed(), farm], program) == Some(
                        s.meteora_farms@.last().1.staking_vault@,
                    )
                    &&& s.wallet_token_accounts == self.wallet_token_accounts
                    &&& s.marginfi_account == self.marginfi_account
                    &&& s.marginfi_banks == self.marginfi_banks
                    &&& s.meteora_dynamic_pools == self.meteora_dynamic_pools
                },
                Err(e) => {
                    let farm = constants::meteora_acusd_usdc_farm_bytes();
                    let program = constants::meteora_farm_bytes();
                    &&& e == Error::InvalidMeteoraFarm
                    &&& (program_address(seq![wallet@, farm], program) is None || program_address(
                        seq![staking_seed(), farm],
                        program,
                    ) is None)
                },
            },
    {
        let mut s = self;
        let farm_address = constants::meteora_acusd_usdc_farm();
        let mut seeds: Vec<Vec<u8>> = Vec::new();
        seeds.push(seed_of(wallet));
        seeds.push(seed_of(&farm_address));
        assert(seeds_of(seeds@) =~= seq![wallet@, constants::meteora_acusd_usdc_farm_bytes()]);
        let user_account = find_program_address(
            &seeds,
            &constants::meteora_farm(),
            Error::InvalidMeteoraFarm,
        )?;
        let mut seeds: Vec<Vec<u8>> = Vec::new();
        seeds.push(staking_seed_bytes());
        seeds.push(seed_of(&farm_address));
        assert(seeds_of(seeds@) =~= seq![
            staking_seed(),
            constants::meteora_acusd_usdc_farm_bytes(),
        ]);
        let staking_vault = find_program_address(
            &seeds,
            &constants::meteora_farm(),
            Error::InvalidMeteoraFarm,
        )?;
        let ghost before = s.meteora_farms@;
        s.meteora_farms.push(
            (
                constants::mint_usdc(),
                MeteoraFarmMeta { address: farm_address, user_account, staking_vault },
            ),
        );
        assert(s.meteora_farms@.subrange(0, before.len() as int) =~= before);
        Ok(s)
    }

    /// The input mint of a pool.
    pub fn get_meteora_pool_input_mint(pool: &Address) -> (r: Result<Address, Error>)
        ensures
            match r {
                Ok(mint) => pool_input_mint(pool@) == Some(mint@),
                Err(e) => pool_input_mint(pool@) is None && e == Error::InvalidMeteoraPool,
            },
    {
        if *pool == constants::meteora_acusd_usdc_pool() {
            Ok(constants::mint_usdc())
        } else {
            Err(Error::InvalidMeteoraPool)
        }
    }

    /// The bank of the mint.
    pub fn get_marginfi_bank(&self, mint: &Address) -> (r: Result<&MarginfiBank, Error>)
        ensures
            match r {
                Ok(bank) => first_value(self.marginfi_banks@, mint@) == Some(*bank),
                Err(e) => first_value(self.marginfi_banks@, mint@) is None && e
                    == Error::InvalidMarginfiBank,
            },
    {
        match find(&self.marginfi_banks, mint) {
            Some(bank) => Ok(bank),
            None => Err(Error::InvalidMarginfiBank),
        }
    }

    /// The bank at the address.
    pub fn get_marginfi_bank_by_bank_address(&self, address: &Address) -> (r: Result<
        &MarginfiBank,
        Error,
    >)
        ensures
            match r {
                Ok(bank) => bank_at(self.marginfi_banks@, address@) == Some(*bank),
                Err(e) => bank_at(self.marginfi_banks@, address@) is None && e
                    == Error::InvalidMarginfiBank,
            },
    {
        let mut i: usize = 0;
        while i < self.marginfi_banks.len()
            invariant
                i <= self.marginfi_banks.len(),
                forall|j: int|
                    0 <= j < i ==> (#[trigger] self.marginfi_banks@[j]).1.address@ != address@,
            decreases self.marginfi_banks.len() - i,
        {
            if self.marginfi_banks[i].1.address == *address {
                proof {
                    assert(is_first_bank_at(self.marginfi_banks@, address@, i as int));
                    let k = choose|k: int| is_first_bank_at(self.marginfi_banks@, address@, k);
                    if k < i {
                        assert(self.marginfi_banks@[k].1.address@ != address@);
                    }
                    if i < k {
                        assert(self.marginfi_banks@[i as int].1.address@ != address@);
                    }
                }
                return Ok(&self.marginfi_banks[i].1);
            }
            i = i + 1;
        }
        proof {
            if exists|k: int| is_first_bank_at(self.marginfi_banks@, address@, k) {
                let k = choose|k: int| is_first_bank_at(self.marginfi_banks@, address@, k);
                assert(self.marginfi_banks@[k].1.address@ != address@);
            }
        }
        Err(Error::InvalidMarginfiBank)
    }

    /// The token account of the wallet for the mint.
    pub fn get_token_account(&self, mint: &Address) -> (r: Result<Address, Error>)
        ensures
            match r {
                Ok(account) => first_value(self.wallet_token_accounts@, mint@) == Some(account),
                Err(e) => first_value(self.wallet_token_accounts@, mint@) is None && e
                    == Error::InvalidTokenAccount,
            },
    {
        match find(&self.wallet_token_accounts, mint) {
            Some(account) => Ok(*account),
            None => Err(Error::InvalidTokenAccount),
        }
    }

    /// The pool whose input mint is `mint`.
    pub fn get_meteora_pool(&self, mint: &Address) -> (r: Result<&MeteoraDynamicPool, Error>)
        ensures
            match r {
                Ok(pool) => first_value(self.meteora_dynamic_pools@, mint@) == Some(*pool),
                Err(e) => first_value(self.meteora_dynamic_pools@, mint@) is None && e
                    == Error::InvalidMeteoraPool,
            },
    {
        match find(&self.meteora_dynamic_pools, mint) {
            Some(pool) => Ok(pool),
            None => Err(Error::InvalidMeteoraPool),
        }
    }

    /// The farm of the pool whose input mint is `mint`.
    pub fn get_meteora_farm(&self, mint: &Address) -> (r: Result<&MeteoraFarmMeta, Error>)
        ensures
            match r {
                Ok(farm) => first_value(self.meteora_farms@, mint@) == Some(*farm),
                Err(e) => first_value(self.meteora_farms@, mint@) is None && e
                    == Error::InvalidMeteoraFarm,
            },
    {
        match find(&self.meteora_farms, mint) {
            Some(farm) => Ok(farm),
            None => Err(Error::InvalidMeteoraFarm),
        }
    }
}

/// The bytes of the seed of the authority over a bank's liquidity vault,
/// the text `liquidity_vault_auth`.
pub fn liquidity_vault_authority_seed_bytes() -> (r: Vec<u8>)
    ensures
        r@ == liquidity_vault_authority_seed(),
{
    let r: Vec<u8> = vec![
        108u8, 105u8, 113u8, 117u8, 105u8, 100u8, 105u8, 116u8, 121u8, 95u8,
        118u8, 97u8, 117u8, 108u8, 116u8, 95u8, 97u8, 117u8, 116u8, 104u8
    ];
    assert(r@ =~= liquidity_vault_authority_seed());
    r
}

/// The bytes of the seed of a farm's staking vault, the text `staking`.
pub fn staking_seed_bytes() -> (r: Vec<u8>)
    ensures
        r@ == staking_seed(),
{
    let r: Vec<u8> = vec![115u8, 116u8, 97u8, 107u8, 105u8, 110u8, 103u8];
    assert(r@ =~= staking_seed());
    r
}

/// A token account that is listed stays listed when the list grows at its
/// end.
pub proof fn lemma_listing_stays(before: StaticAddresses, after: StaticAddresses)
    requires
        before.wallet_token_accounts@.len() <= after.wallet_token_accounts@.len(),
        after.wallet_token_accounts@.subrange(0, before.wallet_token_accounts@.len() as int)
            == before.wallet_token_accounts@,
    ensures
        forall|mint: Seq<u8>, account: Seq<u8>| #[trigger]
            before.lists_token_account(mint, account) ==> after.lists_token_account(mint, account),
        forall|wallet: Seq<u8>, pool: OnChainPool| #[trigger]
            before.has_token_accounts_of(wallet, pool) ==> after.has_token_accounts_of(
                wallet,
                pool,
            ),
{
    assert forall|mint: Seq<u8>, account: Seq<u8>| #[trigger]
        before.lists_token_account(mint, account) implies after.lists_token_account(
        mint,
        account,
    ) by {
        let i = choose|i: int|
            0 <= i < before.wallet_token_accounts@.len() && (
            #[trigger] before.wallet_token_accounts@[i]).0@ == mint
                && before.wallet_token_accounts@[i].1@ == account;
        assert(after.wallet_token_accounts@.subrange(
            0,
            before.wallet_token_accounts@.len() as int,
        )[i] == after.wallet_token_accounts@[i]);
        assert(after.wallet_token_accounts@[i].0@ == mint);
    }
}

} // verus!
