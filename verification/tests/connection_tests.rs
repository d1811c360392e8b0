use margin_engine::account::OnChainMarginfiAccount;
use margin_engine::address::Address;
use margin_engine::addresses::{MarginfiBank, MarginfiBankOracle, OnChainPool};
use margin_engine::connection::{
    contains_address, decode_base64_data, deserialize_aggregator, marginfi_banks_config,
    new_config_by_discriminator, new_margin_fi_account_config, price_no_older_than,
    pyth_oracle_update, switchboard_oracle_update, vault_addresses, watched_oracles, AccountData,
    CommitmentLevel, DataFilter, UiAccountData, UiAccountEncoding, Update, AGGREGATOR_ACCOUNT_LEN,
    MAX_PRICE_AGE_SECS, RESOLUTION_MODE_OFFSET,
};
use margin_engine::constants;
use margin_engine::error::Error;
use margin_engine::oracle::{AggregatorResolutionMode, PythPrice, SwitchboardDecimal};
use margin_engine::oracle_cache::StateUpdate;

const DISCRIMINATOR: [u8; 8] = [217, 230, 65, 101, 201, 162, 27, 125];

fn aggregator_bytes(
    min_oracle_results: u32,
    num_success: u32,
    timestamp: i64,
    result: (i128, u32),
    deviation: (i128, u32),
    mode: u8,
) -> Vec<u8> {
    let mut data: Vec<u8> = vec![0u8; AGGREGATOR_ACCOUNT_LEN];
    data[0..8].copy_from_slice(&DISCRIMINATOR);
    data[236..240].copy_from_slice(&min_oracle_results.to_le_bytes());
    data[341..345].copy_from_slice(&num_success.to_le_bytes());
    data[358..366].copy_from_slice(&timestamp.to_le_bytes());
    data[366..382].copy_from_slice(&result.0.to_le_bytes());
    data[382..386].copy_from_slice(&result.1.to_le_bytes());
    data[386..402].copy_from_slice(&deviation.0.to_le_bytes());
    data[402..406].copy_from_slice(&deviation.1.to_le_bytes());
    data[RESOLUTION_MODE_OFFSET] = mode;
    data
}

fn key(tag: u8) -> Address {
    let mut bytes = [0u8; 32];
    bytes[31] = tag;
    Address::new(bytes)
}

#[test]
fn base_64_is_decoded() {
    assert_eq!(decode_base64_data(&"aGVsbG8=".to_string()), Some(b"hello".to_vec()));
    assert_eq!(decode_base64_data(&"".to_string()), Some(Vec::new()));
    assert_eq!(decode_base64_data(&"AAEC".to_string()), Some(vec![0u8, 1, 2]));
    assert_eq!(decode_base64_data(&"aGVsbG8".to_string()), None);
    assert_eq!(decode_base64_data(&"a GVsbG8=".to_string()), None);
    assert_eq!(decode_base64_data(&"aGVs-G8=".to_string()), None);
}

#[test]
fn only_base_64_account_data_is_decoded() {
    let good = UiAccountData::Binary("aGVsbG8=".to_string(), UiAccountEncoding::Base64);
    assert_eq!(AccountData::decode(&good), Ok(b"hello".to_vec()));
    let bad = UiAccountData::Binary("aGVsbG8".to_string(), UiAccountEncoding::Base64);
    assert_eq!(AccountData::decode(&bad), Err(Error::UnableToDecode));
    let other = UiAccountData::Binary("aGVsbG8=".to_string(), UiAccountEncoding::Base58);
    assert_eq!(AccountData::decode(&other), Err(Error::UnableToDecode));
    let other = UiAccountData::Binary("aGVsbG8=".to_string(), UiAccountEncoding::Base64Zstd);
    assert_eq!(AccountData::decode(&other), Err(Error::UnableToDecode));
    let legacy = UiAccountData::LegacyBinary("aGVsbG8=".to_string());
    assert_eq!(AccountData::decode(&legacy), Err(Error::UnableToDecode));
    assert_eq!(AccountData::decode(&UiAccountData::Json), Err(Error::UnableToDecode));
}

#[test]
fn account_data_gives_its_bytes_in_either_form() {
    let raw: Vec<u8> = vec![1, 2, 3];
    assert_eq!(AccountData::Serialized(&raw).bytes(), Ok(vec![1u8, 2, 3]));
    let encoded = UiAccountData::Binary("AAEC".to_string(), UiAccountEncoding::Base64);
    assert_eq!(AccountData::Encoded(&encoded).bytes(), Ok(vec![0u8, 1, 2]));
    assert_eq!(AccountData::Encoded(&UiAccountData::Json).bytes(), Err(Error::UnableToDecode));
}

#[test]
fn the_length_of_an_aggregator_account_is_that_of_the_record() {
    assert_eq!(
        AGGREGATOR_ACCOUNT_LEN,
        8 + std::mem::size_of::<switchboard_v2::AggregatorAccountData>()
    );
}

#[test]
fn an_aggregator_account_is_read() {
    let data = aggregator_bytes(3, 5, 1_700_000_000, (123456789, 6), (-42, 3), 0);
    let feed = deserialize_aggregator(&data).unwrap();
    assert_eq!(feed.min_oracle_results, 3);
    assert_eq!(feed.latest_confirmed_round_num_success, 5);
    assert_eq!(feed.last_update_ts, 1_700_000_000);
    assert_eq!(
        feed.latest_confirmed_round_result,
        SwitchboardDecimal { mantissa: 123456789, scale: 6 }
    );
    assert_eq!(
        feed.latest_confirmed_round_std_deviation,
        SwitchboardDecimal { mantissa: -42, scale: 3 }
    );
    assert_eq!(feed.resolution_mode, AggregatorResolutionMode::ModeRoundResolution);
    let data = aggregator_bytes(3, 5, 1, (1, 0), (0, 0), 1);
    let feed = deserialize_aggregator(&data).unwrap();
    assert_eq!(feed.resolution_mode, AggregatorResolutionMode::ModeSlidingResolution);
}

#[test]
fn bytes_that_are_no_aggregator_account_are_refused() {
    let mut data = aggregator_bytes(3, 5, 1, (1, 0), (0, 0), 0);
    data[0] = 0;
    assert_eq!(deserialize_aggregator(&data), Err(Error::UnableToDeserialize));
    let data = aggregator_bytes(3, 5, 1, (1, 0), (0, 0), 2);
    assert_eq!(deserialize_aggregator(&data), Err(Error::UnableToDeserialize));
    let mut data = aggregator_bytes(3, 5, 1, (1, 0), (0, 0), 0);
    data.push(0);
    assert_eq!(deserialize_aggregator(&data), Err(Error::UnableToDeserialize));
    let mut data = aggregator_bytes(3, 5, 1, (1, 0), (0, 0), 0);
    data.pop();
    assert_eq!(deserialize_aggregator(&data), Err(Error::UnableToDeserialize));
    assert_eq!(deserialize_aggregator(&Vec::new()), Err(Error::UnableToDeserialize));
    let data = aggregator_bytes(3, 5, 1, (1, 0), (0, 0), 0);
    assert_eq!(AccountData::Serialized(&data).parse_aggregator().unwrap().min_oracle_results, 3);
    let short: Vec<u8> = vec![1, 2, 3];
    assert_eq!(
        AccountData::Serialized(&short).parse_aggregator(),
        Err(Error::UnableToDeserialize)
    );
    assert_eq!(
        AccountData::Encoded(&UiAccountData::Json).parse_aggregator(),
        Err(Error::UnableToDecode)
    );
}

#[test]
fn a_price_counts_for_a_minute() {
    assert_eq!(MAX_PRICE_AGE_SECS, 60);
    let price = PythPrice { price: 1, conf: 2, expo: -3, publish_time: 1000 };
    assert_eq!(price_no_older_than(price, 1000, 60), Some(price));
    assert_eq!(price_no_older_than(price, 1060, 60), Some(price));
    assert_eq!(price_no_older_than(price, 1061, 60), None);
    assert_eq!(price_no_older_than(price, 940, 60), Some(price));
    assert_eq!(price_no_older_than(price, 939, 60), None);
    assert_eq!(price_no_older_than(price, 1000, 0), Some(price));
    assert_eq!(price_no_older_than(price, 1001, 0), None);
    let old = PythPrice { price: 1, conf: 2, expo: -3, publish_time: i64::MIN };
    assert_eq!(price_no_older_than(old, i64::MAX, u64::MAX), Some(old));
    assert_eq!(price_no_older_than(old, i64::MAX, u64::MAX - 1), None);
    assert_eq!(price_no_older_than(old, i64::MIN + 5, 5), Some(old));
}

#[test]
fn a_price_counts_as_the_pyth_sdk_counts_it() {
    let feed_price = pyth_sdk_solana::Price { price: 1, conf: 2, expo: -3, publish_time: 1000 };
    let feed = pyth_sdk_solana::PriceFeed::new(
        pyth_sdk_solana::PriceIdentifier::new([0u8; 32]),
        feed_price,
        feed_price,
    );
    let price = PythPrice { price: 1, conf: 2, expo: -3, publish_time: 1000 };
    let times: Vec<i64> = vec![0, 939, 940, 1000, 1059, 1060, 1061, 5000];
    for now in times {
        assert_eq!(
            price_no_older_than(price, now, 60).is_some(),
            feed.get_ema_price_no_older_than(now, 60).is_some()
        );
    }
}

#[test]
fn watched_addresses_are_found() {
    let watched: Vec<Address> = vec![key(1), key(2)];
    assert!(contains_address(&watched, &key(1)));
    assert!(contains_address(&watched, &key(2)));
    assert!(!contains_address(&watched, &key(3)));
    assert!(!contains_address(&Vec::new(), &key(1)));
}

#[test]
fn a_pyth_report_becomes_an_update() {
    let watched: Vec<Address> = vec![key(2)];
    let price = PythPrice { price: 5, conf: 1, expo: -2, publish_time: 1000 };
    let name = "11111111111111111111111111111113";
    match pyth_oracle_update(&watched, name, price, 77, 1030) {
        Some(StateUpdate::PythOracle((address, feed))) => {
            assert!(address == key(2));
            assert_eq!(feed.price, price);
            assert_eq!(feed.last_update_slot, 77);
        },
        _ => panic!("no update"),
    }
    assert!(pyth_oracle_update(&watched, name, price, 77, 1061).is_none());
    assert!(pyth_oracle_update(&watched, "11111111111111111111111111111112", price, 77, 1030)
        .is_none());
    assert!(pyth_oracle_update(&watched, "not an address", price, 77, 1030).is_none());
    assert!(pyth_oracle_update(&watched, "", price, 77, 1030).is_none());
}

#[test]
fn a_switchboard_report_becomes_an_update() {
    let watched: Vec<Address> = vec![key(2)];
    let name = "11111111111111111111111111111113";
    let data = aggregator_bytes(3, 5, 9, (123, 1), (1, 1), 0);
    match switchboard_oracle_update(&watched, name, &AccountData::Serialized(&data)) {
        Some(StateUpdate::SwitchboardOracle((address, feed))) => {
            assert!(address == key(2));
            assert_eq!(feed.min_oracle_results, 3);
            assert_eq!(feed.latest_confirmed_round_result.mantissa, 123);
        },
        _ => panic!("no update"),
    }
    let other = "11111111111111111111111111111112";
    assert!(switchboard_oracle_update(&watched, other, &AccountData::Serialized(&data)).is_none());
    assert!(switchboard_oracle_update(&watched, "?", &AccountData::Serialized(&data)).is_none());
    let short: Vec<u8> = vec![0u8; 10];
    assert!(switchboard_oracle_update(&watched, name, &AccountData::Serialized(&short)).is_none());
    assert!(switchboard_oracle_update(&watched, name, &AccountData::Encoded(&UiAccountData::Json))
        .is_none());
}

#[test]
fn addresses_are_written_and_read_in_base_58() {
    assert_eq!(Address::zero().to_base58(), "11111111111111111111111111111111");
    assert_eq!(key(1).to_base58(), "11111111111111111111111111111112");
    let usdc = Address::from_base58("EPjFWdd5AufqSSqeM2qN1xzybapC8G4wEGGkZwyTDt1v").unwrap();
    assert_eq!(usdc.to_bytes()[0], 198);
    assert_eq!(usdc.to_base58(), "EPjFWdd5AufqSSqeM2qN1xzybapC8G4wEGGkZwyTDt1v");
    assert!(Address::from_base58("11111111111111111111111111111112").unwrap() == key(1));
    assert!(Address::from_base58("").is_none());
    assert!(Address::from_base58("0OIl").is_none());
    assert!(Address::from_base58("1111").is_none());
    assert!(Address::from_base58("EPjFWdd5AufqSSqeM2qN1xzybapC8G4wEGGkZwyTDt1vEPjFWdd5").is_none());
}

#[test]
fn a_subscription_reports_accounts_and_banks() {
    let update = Update::MarginfiUserAccount(OnChainMarginfiAccount { balances: Vec::new() });
    assert!(matches!(update, Update::MarginfiUserAccount(_)));
}

#[test]
fn the_question_for_the_margin_accounts_of_a_wallet() {
    let config = new_margin_fi_account_config(&key(9));
    assert_eq!(config.filters.len(), 1);
    assert_eq!(config.filters[0].offset, 40);
    assert_eq!(config.filters[0].bytes, key(9).to_bytes().to_vec());
    assert_eq!(config.encoding, UiAccountEncoding::Base64);
    assert_eq!(config.commitment, CommitmentLevel::Confirmed);
}

#[test]
fn the_question_for_the_accounts_of_a_kind() {
    let config = new_config_by_discriminator(vec![1, 2, 3], None);
    assert_eq!(config.filters.len(), 1);
    assert_eq!(config.filters[0].offset, 0);
    assert_eq!(config.filters[0].bytes, vec![1u8, 2, 3]);
    let more = vec![
        DataFilter { offset: 8, bytes: vec![4, 5] },
        DataFilter { offset: 16, bytes: vec![6] },
    ];
    let config = new_config_by_discriminator(vec![1, 2, 3], Some(more));
    assert_eq!(config.filters.len(), 3);
    assert_eq!(config.filters[0].bytes, vec![1u8, 2, 3]);
    assert_eq!(config.filters[1].offset, 8);
    assert_eq!(config.filters[1].bytes, vec![4u8, 5]);
    assert_eq!(config.filters[2].offset, 16);
    assert_eq!(config.filters[2].bytes, vec![6u8]);
    assert_eq!(config.encoding, UiAccountEncoding::Base64);
    assert_eq!(config.commitment, CommitmentLevel::Confirmed);
}

#[test]
fn the_question_for_the_banks_of_the_group() {
    let config = marginfi_banks_config(vec![9, 9]);
    assert_eq!(config.filters.len(), 2);
    assert_eq!(config.filters[0].offset, 0);
    assert_eq!(config.filters[0].bytes, vec![9u8, 9]);
    assert_eq!(config.filters[1].offset, 41);
    assert_eq!(config.filters[1].bytes, constants::marginfi_group().to_bytes().to_vec());
}

fn static_bank(tag: u8, oracle: MarginfiBankOracle) -> (Address, MarginfiBank) {
    (
        key(tag),
        MarginfiBank {
            address: key(tag + 1),
            liquidity_vault: key(tag + 2),
            liquidity_vault_authority: key(tag + 3),
            oracle,
        },
    )
}

#[test]
fn the_oracles_to_watch_are_those_of_one_format() {
    let banks = vec![
        static_bank(10, MarginfiBankOracle::Pyth(key(1))),
        static_bank(20, MarginfiBankOracle::Switchboard(key(2))),
        static_bank(30, MarginfiBankOracle::Pyth(key(3))),
    ];
    let pyth = watched_oracles(&banks, true);
    assert_eq!(pyth.len(), 2);
    assert!(pyth[0] == key(1) && pyth[1] == key(3));
    let switchboard = watched_oracles(&banks, false);
    assert_eq!(switchboard.len(), 1);
    assert!(switchboard[0] == key(2));
    assert!(watched_oracles(&Vec::new(), true).is_empty());
}

fn pool(a_vault: Address, b_vault: Address) -> (Address, OnChainPool) {
    (
        key(200),
        OnChainPool {
            lp_mint: key(201),
            token_a_mint: key(202),
            token_b_mint: key(203),
            a_vault,
            b_vault,
            a_vault_lp: key(204),
            b_vault_lp: key(205),
        },
    )
}

#[test]
fn the_vaults_of_the_pools_are_listed_once() {
    let pools = vec![pool(key(1), key(2)), pool(key(2), key(3)), pool(key(4), key(4))];
    let vaults = vault_addresses(&pools);
    assert_eq!(vaults.len(), 4);
    assert!(vaults[0] == key(1));
    assert!(vaults[1] == key(2));
    assert!(vaults[2] == key(3));
    assert!(vaults[3] == key(4));
    assert!(vault_addresses(&Vec::new()).is_empty());
}
