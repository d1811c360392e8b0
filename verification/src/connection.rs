//! What arrives from the network, turned into values of the engine: the
//! bytes of accounts, the records of oracles, and the updates that a
//! subscription makes of them.
use crate::account::OnChainMarginfiAccount;
use crate::address::{base58_decoded, Address};
use crate::addresses::{seed_of, MarginfiBank, MarginfiBankOracle, OnChainPool};
use crate::bank::OnChainBank;
use crate::constants;
use crate::error::Error;
use crate::oracle::{
    AggregatorResolutionMode, PythPrice, PythPriceFeed, SwitchboardDecimal, SwitchboardPriceFeed,
};
use crate::oracle_cache::StateUpdate;
use vstd::bytes::{
    spec_u128_from_le_bytes, spec_u32_from_le_bytes, spec_u64_from_le_bytes, u128_from_le_bytes,
    u32_from_le_bytes, u64_from_le_bytes,
};
use vstd::prelude::*;
use vstd::slice::slice_subrange;

verus! {

/// The bytes of a Switchboard aggregator account: eight bytes that name the
/// kind of account, and the record.
pub const AGGREGATOR_ACCOUNT_LEN: usize = 3851;

/// Where the least number of oracle results lies in an aggregator account.
pub const MIN_ORACLE_RESULTS_OFFSET: usize = 236;

/// Where the latest confirmed round begins in an aggregator account, with
/// the number of its successful answers.
pub const LATEST_ROUND_OFFSET: usize = 341;

/// Where the time at which the latest confirmed round opened lies.
pub const ROUND_OPEN_TIMESTAMP_OFFSET: usize = 358;

/// Where the result of the latest confirmed round lies.
pub const ROUND_RESULT_OFFSET: usize = 366;

/// Where the standard deviation of the latest confirmed round lies.
pub const ROUND_STD_DEVIATION_OFFSET: usize = 386;

/// Where the byte of the resolution mode lies in an aggregator account.
pub const RESOLUTION_MODE_OFFSET: usize = 3712;

/// The seconds after which a Pyth price counts as stale.
pub const MAX_PRICE_AGE_SECS: u64 = 60;

/// The bytes that a text in standard base 64, with padding, stands for, where
/// it is such a text.
pub uninterp spec fn base64_decoded(text: Seq<char>) -> Option<Seq<u8>>;

/// Decodes standard base 64 with `base64::engine::general_purpose::STANDARD`
/// and its `decode`, which gives an error for a text that is not base 64
/// with canonical padding. The result depends on the text alone.
#[verifier::external_body]
fn base64_decode(encoded: &String) -> (r: Option<Vec<u8>>)
    ensures
        match r {
            Some(bytes) => base64_decoded(encoded@) == Some(bytes@),
            None => base64_decoded(encoded@) is None,
        },
{
    match base64::Engine::decode(&base64::engine::general_purpose::STANDARD, encoded) {
        Ok(bytes) => Some(bytes),
        Err(_) => None,
    }
}

/// The bytes that a text in base 64 stands for.
pub fn decode_base64_data(encoded: &String) -> (r: Option<Vec<u8>>)
    ensures
        match r {
            Some(bytes) => base64_decoded(encoded@) == Some(bytes@),
            None => base64_decoded(encoded@) is None,
        },
{
    base64_decode(encoded)
}

/// How the data of an account is written in an answer of the network.
#[derive(Clone, Copy, Debug, PartialEq, Eq, Structural)]
pub enum UiAccountEncoding {
    Binary,
    Base58,
    Base64,
    JsonParsed,
    Base64Zstd,
}

/// The data of an account in an answer of the network.
#[derive(Debug)]
pub enum UiAccountData {
    LegacyBinary(String),
    Json,
    Binary(String, UiAccountEncoding),
}

/// The data of an account, as bytes or as the network wrote them.
#[derive(Debug)]
pub enum AccountData<'a> {
    Serialized(&'a Vec<u8>),
    Encoded(&'a UiAccountData),
}

/// The bytes of account data that the network wrote: those of a text in
/// base 64. Data in any other form has none.
pub open spec fn decoded(encoded_data: UiAccountData) -> Option<Seq<u8>> {
    match encoded_data {
        UiAccountData::Binary(text, UiAccountEncoding::Base64) => base64_decoded(text@),
        _ => None,
    }
}

impl<'a> AccountData<'a> {
    /// The bytes of the data.
    pub open spec fn spec_bytes(&self) -> Option<Seq<u8>> {
        match self {
            AccountData::Serialized(bytes) => Some(bytes@),
            AccountData::Encoded(encoded) => decoded(**encoded),
        }
    }

    /// The bytes of account data that the network wrote in base 64.
    pub fn decode(encoded_data: &UiAccountData) -> (r: Result<Vec<u8>, Error>)
        ensures
            match r {
                Ok(bytes) => decoded(*encoded_data) == Some(bytes@),
                Err(e) => decoded(*encoded_data) is None && e == Error::UnableToDecode,
            },
    {
        let res = match encoded_data {
            UiAccountData::Binary(encoded_data, encoding) => match encoding {
                UiAccountEncoding::Base64 => decode_base64_data(encoded_data),
                _ => None,
            },
            _ => None,
        };
        match res {
            Some(bytes) => Ok(bytes),
            None => Err(Error::UnableToDecode),
        }
    }

    /// The bytes of the data, decoded where the network wrote them as text.
    pub fn bytes(&self) -> (r: Result<Vec<u8>, Error>)
        ensures
            match r {
                Ok(bytes) => self.spec_bytes() == Some(bytes@),
                Err(e) => self.spec_bytes() is None && e == Error::UnableToDecode,
            },
    {
        match self {
            AccountData::Encoded(encoded) => AccountData::decode(encoded),
            AccountData::Serialized(bytes) => {
                let copy = (*bytes).clone();
                assert(copy@ =~= bytes@);
                Ok(copy)
            },
        }
    }

    /// The latest confirmed round of the Switchboard aggregator that the
    /// data is of.
    pub fn parse_aggregator(&self) -> (r: Result<SwitchboardPriceFeed, Error>)
        ensures
            match self.spec_bytes() {
                None => r == Err::<SwitchboardPriceFeed, Error>(Error::UnableToDecode),
                Some(bytes) => match r {
                    Ok(feed) => aggregator_record(bytes) == Some(feed),
                    Err(e) => aggregator_record(bytes) is None && e == Error::UnableToDeserialize,
                },
            },
    {
        let bytes = self.bytes()?;
        deserialize_aggregator(&bytes)
    }
}

/// What a subscription to the lending program reports.
#[derive(Debug)]
pub enum Update {
    MarginfiUserAccount(OnChainMarginfiAccount),
    MarginfiBank(OnChainBank),
}

/// The eight bytes with which every aggregator account begins.
pub open spec fn aggregator_discriminator() -> Seq<u8> {
    seq![217u8, 230u8, 65u8, 101u8, 201u8, 162u8, 27u8, 125u8]
}

/// The resolution mode that a byte stands for.
pub open spec fn resolution_mode(byte: u8) -> Option<AggregatorResolutionMode> {
    if byte == 0 {
        Some(AggregatorResolutionMode::ModeRoundResolution)
    } else if byte == 1 {
        Some(AggregatorResolutionMode::ModeSlidingResolution)
    } else {
        None
    }
}

/// The decimal that lies at `offset`: sixteen bytes of mantissa and four of
/// scale, both with the lowest byte first.
pub open spec fn decimal_at(data: Seq<u8>, offset: int) -> SwitchboardDecimal {
    SwitchboardDecimal {
        mantissa: spec_u128_from_le_bytes(data.subrange(offset, offset + 16)) as i128,
        scale: spec_u32_from_le_bytes(data.subrange(offset + 16, offset + 20)),
    }
}

/// Whether bytes have the length and the beginning of an aggregator account
/// and a resolution mode that exists.
pub open spec fn aggregator_shaped(data: Seq<u8>) -> bool {
    &&& data.len() == AGGREGATOR_ACCOUNT_LEN
    &&& data.subrange(0, 8) == aggregator_discriminator()
    &&& resolution_mode(data[RESOLUTION_MODE_OFFSET as int]) is Some
}

/// The latest confirmed round that an aggregator account holds. The record
/// is packed, its fields lie in the order in which the account declares
/// them, and every number has its lowest byte first.
pub open spec fn aggregator_record(data: Seq<u8>) -> Option<SwitchboardPriceFeed> {
    if aggregator_shaped(data) {
        Some(
            SwitchboardPriceFeed {
                last_update_ts: spec_u64_from_le_bytes(
                    data.subrange(
                        ROUND_OPEN_TIMESTAMP_OFFSET as int,
                        ROUND_OPEN_TIMESTAMP_OFFSET + 8,
                    ),
                ) as i64,
                resolution_mode: resolution_mode(data[RESOLUTION_MODE_OFFSET as int]).unwrap(),
                latest_confirmed_round_result: decimal_at(data, ROUND_RESULT_OFFSET as int),
                latest_confirmed_round_num_success: spec_u32_from_le_bytes(
                    data.subrange(LATEST_ROUND_OFFSET as int, LATEST_ROUND_OFFSET + 4),
                ),
                latest_confirmed_round_std_deviation: decimal_at(
                    data,
                    ROUND_STD_DEVIATION_OFFSET as int,
                ),
                min_oracle_results: spec_u32_from_le_bytes(
                    data.subrange(MIN_ORACLE_RESULTS_OFFSET as int, MIN_ORACLE_RESULTS_OFFSET + 4),
                ),
            },
        )
    } else {
        None
    }
}

/// Whether the bytes begin as an aggregator account does.
fn has_aggregator_discriminator(data: &Vec<u8>) -> (r: bool)
    requires
        data@.len() >= 8,
    ensures
        r == (data@.subrange(0, 8) == aggregator_discriminator()),
{
    let expected: [u8; 8] = [217, 230, 65, 101, 201, 162, 27, 125];
    let mut i: usize = 0;
    while i < 8
        invariant
            i <= 8,
            data@.len() >= 8,
            expected@ == aggregator_discriminator(),
            forall|j: int| 0 <= j < i ==> data@[j] == aggregator_discriminator()[j],
        decreases 8 - i,
    {
        if data[i] != expected[i] {
            assert(data@.subrange(0, 8)[i as int] != aggregator_discriminator()[i as int]);
            return false;
        }
        i = i + 1;
    }
    assert(data@.subrange(0, 8) =~= aggregator_discriminator());
    true
}

/// Reads the decimal that lies at `offset`.
fn read_decimal(data: &Vec<u8>, offset: usize) -> (r: SwitchboardDecimal)
    requires
        data@.len() == AGGREGATOR_ACCOUNT_LEN,
        offset + 20 <= AGGREGATOR_ACCOUNT_LEN,
    ensures
        r == decimal_at(data@, offset as int),
{
    let raw: u128 = u128_from_le_bytes(slice_subrange(data.as_slice(), offset, offset + 16));
    let scale: u32 = u32_from_le_bytes(slice_subrange(data.as_slice(), offset + 16, offset + 20));
    let mantissa: i128 = #[verifier::truncate]
    (raw as i128);
    SwitchboardDecimal { mantissa, scale }
}

/// The latest confirmed round of the Switchboard aggregator whose account
/// holds `data`.
pub fn deserialize_aggregator(data: &Vec<u8>) -> (r: Result<SwitchboardPriceFeed, Error>)
    ensures
        match r {
            Ok(feed) => aggregator_record(data@) == Some(feed),
            Err(e) => aggregator_record(data@) is None && e == Error::UnableToDeserialize,
        },
{
    if data.len() != AGGREGATOR_ACCOUNT_LEN {
        return Err(Error::UnableToDeserialize);
    }
    if !has_aggregator_discriminator(data) {
        return Err(Error::UnableToDeserialize);
    }
    let mode_byte: u8 = data[RESOLUTION_MODE_OFFSET];
    let mode = if mode_byte == 0 {
        AggregatorResolutionMode::ModeRoundResolution
    } else if mode_byte == 1 {
        AggregatorResolutionMode::ModeSlidingResolution
    } else {
        return Err(Error::UnableToDeserialize);
    };
    let bytes = data.as_slice();
    let opened: u64 = u64_from_le_bytes(
        slice_subrange(bytes, ROUND_OPEN_TIMESTAMP_OFFSET, ROUND_OPEN_TIMESTAMP_OFFSET + 8),
    );
    let last_update_ts: i64 = #[verifier::truncate]
    (opened as i64);
    Ok(
        SwitchboardPriceFeed {
            last_update_ts,
            resolution_mode: mode,
            latest_confirmed_round_result: read_decimal(data, ROUND_RESULT_OFFSET),
            latest_confirmed_round_num_success: u32_from_le_bytes(
                slice_subrange(bytes, LATEST_ROUND_OFFSET, LATEST_ROUND_OFFSET + 4),
            ),
            latest_confirmed_round_std_deviation: read_decimal(data, ROUND_STD_DEVIATION_OFFSET),
            min_oracle_results: u32_from_le_bytes(
                slice_subrange(bytes, MIN_ORACLE_RESULTS_OFFSET, MIN_ORACLE_RESULTS_OFFSET + 4),
            ),
        },
    )
}

/// Whether a price was published within `age` seconds of `current_time`,
/// before or after it.
pub open spec fn is_fresh(price: PythPrice, current_time: i64, age: u64) -> bool {
    -(age as int) <= price.publish_time - current_time <= age as int
}

/// The price, where it was published within `age` seconds of
/// `current_time`.
pub fn price_no_older_than(price: PythPrice, current_time: i64, age: u64) -> (r: Option<PythPrice>)
    ensures
        r == (if is_fresh(price, current_time, age) {
            Some(price)
        } else {
            None
        }),
{
    let diff: i128 = price.publish_time as i128 - current_time as i128;
    let bound: i128 = age as i128;
    if diff > bound || diff < -bound {
        None
    } else {
        Some(price)
    }
}

/// Whether an address is among the watched ones.
pub open spec fn is_watched(watched: Seq<Address>, address: Seq<u8>) -> bool {
    exists|i: int| 0 <= i < watched.len() && (#[trigger] watched[i])@ == address
}

/// Whether an address is among the watched ones.
pub fn contains_address(watched: &Vec<Address>, address: &Address) -> (r: bool)
    ensures
        r == is_watched(watched@, address@),
{
    let mut i: usize = 0;
    while i < watched.len()
        invariant
            i <= watched.len(),
            forall|j: int| 0 <= j < i ==> (#[trigger] watched@[j])@ != address@,
        decreases watched.len() - i,
    {
        if watched[i] == *address {
            return true;
        }
        i = i + 1;
    }
    false
}

/// The update that a report of a Pyth price account makes: the moving
/// average `ema_price` of the oracle named by `pubkey`, seen at `slot`.
/// Nothing where the name is no address, where the oracle is not watched,
/// or where the price is older than a minute at `now_ts`.
pub open spec fn pyth_update(
    watched: Seq<Address>,
    pubkey: Seq<char>,
    ema_price: PythPrice,
    slot: u64,
    now_ts: i64,
) -> Option<(Seq<u8>, PythPriceFeed)> {
    match base58_decoded(pubkey) {
        Some(address) => if is_watched(watched, address) && is_fresh(
            ema_price,
            now_ts,
            MAX_PRICE_AGE_SECS,
        ) {
            Some((address, PythPriceFeed { last_update_slot: slot, price: ema_price }))
        } else {
            None
        },
        None => None,
    }
}

/// Makes the update of a report of a Pyth price account, where it makes
/// one.
pub fn pyth_oracle_update(
    watched_oracles: &Vec<Address>,
    pubkey: &str,
    ema_price: PythPrice,
    slot: u64,
    now_ts: i64,
) -> (r: Option<StateUpdate>)
    ensures
        match r {
            Some(StateUpdate::PythOracle(entry)) => pyth_update(
                watched_oracles@,
                pubkey@,
                ema_price,
                slot,
                now_ts,
            ) == Some((entry.0@, entry.1)),
            Some(_) => false,
            None => pyth_update(watched_oracles@, pubkey@, ema_price, slot, now_ts) is None,
        },
{
    let address = match Address::from_base58(pubkey) {
        Some(a) => a,
        None => {
            return None;
        },
    };
    if !contains_address(watched_oracles, &address) {
        return None;
    }
    match price_no_older_than(ema_price, now_ts, MAX_PRICE_AGE_SECS) {
        Some(price) => Some(
            StateUpdate::PythOracle((address, PythPriceFeed { price, last_update_slot: slot })),
        ),
        None => None,
    }
}

/// The update that a report of a Switchboard aggregator account makes: the
/// latest confirmed round of the oracle named by `pubkey`. Nothing where
/// the name is no address, where the oracle is not watched, or where the
/// data is no aggregator account.
pub open spec fn switchboard_update(
    watched: Seq<Address>,
    pubkey: Seq<char>,
    data: Option<Seq<u8>>,
) -> Option<(Seq<u8>, SwitchboardPriceFeed)> {
    match (base58_decoded(pubkey), data) {
        (Some(address), Some(bytes)) => if is_watched(watched, address) {
            match aggregator_record(bytes) {
                Some(feed) => Some((address, feed)),
                None => None,
            }
        } else {
            None
        },
        _ => None,
    }
}

/// Makes the update of a report of a Switchboard aggregator account, where
/// it makes one.
pub fn switchboard_oracle_update(
    watched_oracles: &Vec<Address>,
    pubkey: &str,
    account: &AccountData,
) -> (r: Option<StateUpdate>)
    ensures
        match r {
            Some(StateUpdate::SwitchboardOracle(entry)) => switchboard_update(
                watched_oracles@,
                pubkey@,
                account.spec_bytes(),
            ) == Some((entry.0@, entry.1)),
            Some(_) => false,
            None => switchboard_update(watched_oracles@, pubkey@, account.spec_bytes()) is None,
        },
{
    let address = match Address::from_base58(pubkey) {
        Some(a) => a,
        None => {
            return None;
        },
    };
    if !contains_address(watched_oracles, &address) {
        return None;
    }
    match account.parse_aggregator() {
        Ok(feed) => Some(StateUpdate::SwitchboardOracle((address, feed))),
        Err(_) => None,
    }
}

/// How settled the state is that a question to the network is about.
#[derive(Clone, Copy, Debug, PartialEq, Eq, Structural)]
pub enum CommitmentLevel {
    Processed,
    Confirmed,
    Finalized,
}

/// A condition on the accounts of a program: the bytes that an account must
/// hold at an offset.
#[derive(Debug)]
pub struct DataFilter {
    pub offset: usize,
    pub bytes: Vec<u8>,
}

/// A question for the accounts of a program that meet every filter.
#[derive(Debug)]
pub struct ProgramAccountsConfig {
    pub filters: Vec<DataFilter>,
    pub encoding: UiAccountEncoding,
    pub commitment: CommitmentLevel,
}

/// Where the address of the owner lies in a margin account.
pub const MARGINFI_ACCOUNT_AUTHORITY_OFFSET: usize = 40;

/// Where the address of the group lies in a bank.
pub const BANK_GROUP_OFFSET: usize = 41;

/// The question for the margin accounts of a wallet: those that hold the
/// wallet's address as their owner.
pub fn new_margin_fi_account_config(wallet: &Address) -> (r: ProgramAccountsConfig)
    ensures
        r.filters@.len() == 1,
        r.filters@[0].offset == MARGINFI_ACCOUNT_AUTHORITY_OFFSET,
        r.filters@[0].bytes@ == wallet@,
        r.encoding == UiAccountEncoding::Base64,
        r.commitment == CommitmentLevel::Confirmed,
{
    let mut filters: Vec<DataFilter> = Vec::new();
    filters.push(DataFilter { offset: MARGINFI_ACCOUNT_AUTHORITY_OFFSET, bytes: seed_of(wallet) });
    ProgramAccountsConfig {
        filters,
        encoding: UiAccountEncoding::Base64,
        commitment: CommitmentLevel::Confirmed,
    }
}

/// The question for the accounts that begin with `discriminator` and meet
/// the further filters, in their order.
pub fn new_config_by_discriminator(discriminator: Vec<u8>, filters: Option<Vec<DataFilter>>) -> (r:
    ProgramAccountsConfig)
    ensures
        r.filters@.len() == 1 + (match filters {
            Some(more) => more@.len(),
            None => 0,
        }),
        r.filters@[0].offset == 0,
        r.filters@[0].bytes@ == discriminator@,
        forall|i: int|
            1 <= i < r.filters@.len() ==> (#[trigger] r.filters@[i]).offset
                == filters.unwrap()@[i - 1].offset && r.filters@[i].bytes@
                == filters.unwrap()@[i - 1].bytes@,
        r.encoding == UiAccountEncoding::Base64,
        r.commitment == CommitmentLevel::Confirmed,
{
    let mut all: Vec<DataFilter> = Vec::new();
    all.push(DataFilter { offset: 0, bytes: discriminator });
    match filters {
        Some(more) => {
            let mut i: usize = 0;
            while i < more.len()
                invariant
                    i <= more.len(),
                    all@.len() == 1 + i,
                    all@[0].offset == 0,
                    all@[0].bytes@ == discriminator@,
                    forall|k: int|
                        1 <= k < all@.len() ==> (#[trigger] all@[k]).offset == more@[k - 1].offset
                            && all@[k].bytes@ == more@[k - 1].bytes@,
                decreases more.len() - i,
            {
                let copy = more[i].bytes.clone();
                assert(copy@ =~= more@[i as int].bytes@);
                all.push(DataFilter { offset: more[i].offset, bytes: copy });
                i = i + 1;
            }
        },
        None => {},
    }
    ProgramAccountsConfig {
        filters: all,
        encoding: UiAccountEncoding::Base64,
        commitment: CommitmentLevel::Confirmed,
    }
}

/// The question for the banks of the lending group: the accounts that begin
/// as a bank does and hold the address of the group.
pub fn marginfi_banks_config(bank_discriminator: Vec<u8>) -> (r: ProgramAccountsConfig)
    ensures
        r.filters@.len() == 2,
        r.filters@[0].offset == 0,
        r.filters@[0].bytes@ == bank_discriminator@,
        r.filters@[1].offset == BANK_GROUP_OFFSET,
        r.filters@[1].bytes@ == constants::marginfi_group_bytes(),
        r.encoding == UiAccountEncoding::Base64,
        r.commitment == CommitmentLevel::Confirmed,
{
    let mut more: Vec<DataFilter> = Vec::new();
    more.push(
        DataFilter { offset: BANK_GROUP_OFFSET, bytes: seed_of(&constants::marginfi_group()) },
    );
    new_config_by_discriminator(bank_discriminator, Some(more))
}

/// Whether an oracle is of the wanted format.
pub open spec fn oracle_wanted(oracle: MarginfiBankOracle, pyth: bool) -> bool {
    match oracle {
        MarginfiBankOracle::Pyth(_) => pyth,
        MarginfiBankOracle::Switchboard(_) => !pyth,
    }
}

/// The oracles of the wanted format among those of the first `n` banks, in
/// the order of the banks.
pub open spec fn oracles_of(
    banks: Seq<(Address, MarginfiBank)>,
    pyth: bool,
    n: nat,
) -> Seq<Address>
    decreases n,
{
    if n == 0 {
        Seq::empty()
    } else {
        let before = oracles_of(banks, pyth, (n - 1) as nat);
        if oracle_wanted(banks[n - 1].1.oracle, pyth) {
            before.push(banks[n - 1].1.oracle.address_of())
        } else {
            before
        }
    }
}

/// The oracles to watch: those of the banks that are priced by Pyth where
/// `pyth`, else those that are priced by Switchboard.
pub fn watched_oracles(banks: &Vec<(Address, MarginfiBank)>, pyth: bool) -> (r:
    Vec<Address>)
    ensures
        r@ == oracles_of(banks@, pyth, banks@.len()),
{
    let mut watched: Vec<Address> = Vec::new();
    let mut i: usize = 0;
    while i < banks.len()
        invariant
            i <= banks.len(),
            watched@ == oracles_of(banks@, pyth, i as nat),
        decreases banks.len() - i,
    {
        match banks[i].1.oracle {
            MarginfiBankOracle::Pyth(address) => {
                if pyth {
                    watched.push(address);
                }
            },
            MarginfiBankOracle::Switchboard(address) => {
                if !pyth {
                    watched.push(address);
                }
            },
        }
        i = i + 1;
    }
    watched
}

/// Whether no address stands twice in a list.
pub open spec fn all_different(addresses: Seq<Address>) -> bool {
    forall|i: int, j: int|
        0 <= i < j < addresses.len() ==> (#[trigger] addresses[i])@ != (#[trigger] addresses[j])@
}

/// A list of addresses with one more at its end, unless it holds that
/// address already.
pub open spec fn with_address(addresses: Seq<Address>, added: Address) -> Seq<Address> {
    if is_watched(addresses, added@) {
        addresses
    } else {
        addresses.push(added)
    }
}

/// The vaults that the first `n` pools name, each once, in the order in
/// which the pools name them: of every pool its first vault, then its
/// second.
pub open spec fn vaults_of(pools: Seq<(Address, OnChainPool)>, n: nat) -> Seq<Address>
    decreases n,
{
    if n == 0 {
        Seq::empty()
    } else {
        with_address(
            with_address(vaults_of(pools, (n - 1) as nat), pools[n - 1].1.a_vault),
            pools[n - 1].1.b_vault,
        )
    }
}

/// Whether one of the first `n` pools names the vault.
pub open spec fn names_vault(pools: Seq<(Address, OnChainPool)>, vault: Seq<u8>, n: int) -> bool {
    exists|i: int|
        0 <= i < n && ((#[trigger] pools[i]).1.a_vault@ == vault || pools[i].1.b_vault@ == vault)
}

/// The vaults of the given pools, each once, in the order in which the
/// pools name them.
pub fn vault_addresses(pools: &Vec<(Address, OnChainPool)>) -> (r: Vec<Address>)
    ensures
        r@ == vaults_of(pools@, pools@.len()),
        all_different(r@),
        forall|i: int|
            0 <= i < pools@.len() ==> is_watched(r@, (#[trigger] pools@[i]).1.a_vault@)
                && is_watched(r@, pools@[i].1.b_vault@),
        forall|k: int|
            0 <= k < r@.len() ==> names_vault(pools@, (#[trigger] r@[k])@, pools@.len() as int),
{
    let mut vaults: Vec<Address> = Vec::new();
    let mut i: usize = 0;
    while i < pools.len()
        invariant
            i <= pools.len(),
            vaults@ == vaults_of(pools@, i as nat),
            all_different(vaults@),
            forall|j: int|
                0 <= j < i ==> is_watched(vaults@, (#[trigger] pools@[j]).1.a_vault@)
                    && is_watched(vaults@, pools@[j].1.b_vault@),
            forall|k: int|
                0 <= k < vaults@.len() ==> names_vault(pools@, (#[trigger] vaults@[k])@, i as int),
        decreases pools.len() - i,
    {
        let pool: OnChainPool = pools[i].1;
        let ghost before = vaults@;
        if !contains_address(&vaults, &pool.a_vault) {
            vaults.push(pool.a_vault);
            proof {
                lemma_push_keeps_watched(before, pool.a_vault);
            }
        }
        let ghost middle = vaults@;
        if !contains_address(&vaults, &pool.b_vault) {
            vaults.push(pool.b_vault);
            proof {
                lemma_push_keeps_watched(middle, pool.b_vault);
            }
        }
        proof {
            assert(is_watched(middle, pool.a_vault@));
            assert(is_watched(vaults@, pool.a_vault@));
            assert(is_watched(vaults@, pool.b_vault@));
            assert forall|j: int| 0 <= j < i + 1 implies is_watched(
                vaults@,
                (#[trigger] pools@[j]).1.a_vault@,
            ) && is_watched(vaults@, pools@[j].1.b_vault@) by {
                if j < i {
                    assert(is_watched(before, pools@[j].1.a_vault@));
                    assert(is_watched(before, pools@[j].1.b_vault@));
                    assert(is_watched(middle, pools@[j].1.a_vault@));
                    assert(is_watched(middle, pools@[j].1.b_vault@));
                }
            }
            assert forall|k: int| 0 <= k < vaults@.len() implies names_vault(
                pools@,
                (#[trigger] vaults@[k])@,
                i + 1,
            ) by {
                if k < before.len() {
                    assert(vaults@[k] == before[k]);
                    assert(names_vault(pools@, before[k]@, i as int));
                    let j = choose|j: int|
                        0 <= j < i && ((#[trigger] pools@[j]).1.a_vault@ == before[k]@
                            || pools@[j].1.b_vault@ == before[k]@);
                    assert(pools@[j].1.a_vault@ == vaults@[k]@ || pools@[j].1.b_vault@
                        == vaults@[k]@);
                } else {
                    assert(pools@[i as int].1.a_vault@ == vaults@[k]@ || pools@[i as int].1.b_vault@
                        == vaults@[k]@);
                }
            }
        }
        i = i + 1;
    }
    vaults
}

/// Adding an address at the end of a list keeps what was found in it, and
/// keeps its addresses different where the added one was not among them.
pub proof fn lemma_push_keeps_watched(addresses: Seq<Address>, added: Address)
    ensures
        forall|a: Seq<u8>| #[trigger]
            is_watched(addresses, a) ==> is_watched(addresses.push(added), a),
        is_watched(addresses.push(added), added@),
        all_different(addresses) && !is_watched(addresses, added@) ==> all_different(
            addresses.push(added),
        ),
{
    let after = addresses.push(added);
    assert forall|a: Seq<u8>| #[trigger] is_watched(addresses, a) implies is_watched(after, a) by {
        let i = choose|i: int| 0 <= i < addresses.len() && (#[trigger] addresses[i])@ == a;
        assert(after[i]@ == a);
    }
    assert(after[addresses.len() as int]@ == added@);
    if all_different(addresses) && !is_watched(addresses, added@) {
        assert forall|i: int, j: int| 0 <= i < j < after.len() implies (#[trigger] after[i])@ != (
        #[trigger] after[j])@ by {
            if j < addresses.len() {
                assert(addresses[i]@ != addresses[j]@);
            } else {
                assert(after[i] == addresses[i]);
                if addresses[i]@ == added@ {
                    assert(is_watched(addresses, added@));
                }
            }
        }
    }
}

} // verus!
