use margin_engine::address::Address;
use margin_engine::error::Error;
use margin_engine::swap::{
    lookup_tables_of, parse_addresses, JupiterAccount, JupiterInstruction, JupiterIxsResponse,
};

fn key(tag: u8) -> Address {
    let mut bytes = [3u8; 32];
    bytes[0] = tag;
    Address::new(bytes)
}

fn instruction(tag: u8, data: &str) -> JupiterInstruction {
    JupiterInstruction {
        program_id: key(tag),
        accounts: vec![
            JupiterAccount { pubkey: key(tag + 1), is_signer: true, is_writable: false },
            JupiterAccount { pubkey: key(tag + 2), is_signer: false, is_writable: true },
        ],
        data: data.to_string(),
    }
}

fn table_bytes(addresses: &Vec<Address>) -> Vec<u8> {
    let keys: Vec<solana_sdk::pubkey::Pubkey> = addresses
        .iter()
        .map(|a| solana_sdk::pubkey::Pubkey::new_from_array(a.to_bytes()))
        .collect();
    let table = solana_address_lookup_table_program::state::AddressLookupTable {
        meta: solana_address_lookup_table_program::state::LookupTableMeta::default(),
        addresses: std::borrow::Cow::Owned(keys),
    };
    table.serialize_for_tests().unwrap()
}

#[test]
fn an_instruction_of_the_service_is_decoded() {
    let ix = instruction(10, "AAEC").into_instruction().unwrap();
    assert!(ix.program_id == key(10));
    assert_eq!(ix.data, vec![0u8, 1, 2]);
    assert_eq!(ix.accounts.len(), 2);
    assert!(ix.accounts[0].pubkey == key(11));
    assert!(ix.accounts[0].is_signer && !ix.accounts[0].is_writable);
    assert!(ix.accounts[1].pubkey == key(12));
    assert!(!ix.accounts[1].is_signer && ix.accounts[1].is_writable);
    let meta = JupiterAccount { pubkey: key(1), is_signer: true, is_writable: true }
        .into_account_meta();
    assert!(meta.pubkey == key(1) && meta.is_signer && meta.is_writable);
    assert_eq!(instruction(10, "A").into_instruction().err(), Some(Error::UnableToDecode));
}

#[test]
fn the_instructions_of_an_answer_come_in_their_order() {
    let response = JupiterIxsResponse {
        compute_budget_instructions: Some(vec![instruction(10, "AA=="), instruction(20, "AQ==")]),
        setup_instructions: Some(vec![instruction(30, "Ag==")]),
        swap_instruction: instruction(40, "Aw=="),
        cleanup_instruction: Some(vec![instruction(50, "BA==")]),
        address_lookup_table_addresses: Vec::new(),
    };
    let ixs = response.into_instructions().unwrap();
    let programs: Vec<u8> = ixs.iter().map(|ix| ix.program_id.to_bytes()[0]).collect();
    assert_eq!(programs, vec![10, 20, 30, 40, 50]);
    let payloads: Vec<u8> = ixs.iter().map(|ix| ix.data[0]).collect();
    assert_eq!(payloads, vec![0, 1, 2, 3, 4]);
    let response = JupiterIxsResponse {
        compute_budget_instructions: None,
        setup_instructions: None,
        swap_instruction: instruction(40, "Aw=="),
        cleanup_instruction: None,
        address_lookup_table_addresses: Vec::new(),
    };
    let ixs = response.into_instructions().unwrap();
    assert_eq!(ixs.len(), 1);
    assert!(ixs[0].program_id == key(40));
}

#[test]
fn a_payload_that_is_not_base_64_is_refused() {
    let response = JupiterIxsResponse {
        compute_budget_instructions: None,
        setup_instructions: Some(vec![instruction(30, "Ag==")]),
        swap_instruction: instruction(40, "Aw=="),
        cleanup_instruction: Some(vec![instruction(50, "!")]),
        address_lookup_table_addresses: Vec::new(),
    };
    assert_eq!(response.into_instructions().err(), Some(Error::UnableToDecode));
}

#[test]
fn addresses_are_read_from_their_texts() {
    let texts = vec![
        "11111111111111111111111111111111".to_string(),
        "EPjFWdd5AufqSSqeM2qN1xzybapC8G4wEGGkZwyTDt1v".to_string(),
    ];
    let addresses = parse_addresses(&texts).unwrap();
    assert_eq!(addresses.len(), 2);
    assert!(addresses[0] == Address::zero());
    assert_eq!(addresses[1].to_base58(), "EPjFWdd5AufqSSqeM2qN1xzybapC8G4wEGGkZwyTDt1v");
    let texts = vec!["11111111111111111111111111111111".to_string(), "x".to_string()];
    assert_eq!(parse_addresses(&texts).err(), Some(Error::UnableToDecode));
    assert_eq!(parse_addresses(&Vec::new()).unwrap().len(), 0);
}

#[test]
fn lookup_tables_are_read_and_the_rest_is_passed_over() {
    let first = vec![key(1), key(2), key(3)];
    let second: Vec<Address> = Vec::new();
    let asked = vec![key(100), key(101), key(102), key(103)];
    let accounts = vec![
        Some(table_bytes(&first)),
        None,
        Some(vec![1u8, 2, 3]),
        Some(table_bytes(&second)),
    ];
    let tables = lookup_tables_of(&asked, &accounts);
    assert_eq!(tables.len(), 2);
    assert!(tables[0].key == key(100));
    assert_eq!(tables[0].addresses.len(), 3);
    assert!(tables[0].addresses[0] == key(1));
    assert!(tables[0].addresses[2] == key(3));
    assert!(tables[1].key == key(103));
    assert!(tables[1].addresses.is_empty());
    assert!(lookup_tables_of(&Vec::new(), &Vec::new()).is_empty());
}

#[test]
fn fewer_accounts_than_addresses_are_read_as_far_as_they_go() {
    let held = vec![key(1)];
    let asked = vec![key(100), key(101), key(102)];
    let accounts = vec![None, Some(table_bytes(&held))];
    let tables = lookup_tables_of(&asked, &accounts);
    assert_eq!(tables.len(), 1);
    assert!(tables[0].key == key(101));
    assert!(tables[0].addresses[0] == key(1));
    assert!(lookup_tables_of(&asked, &Vec::new()).is_empty());
}
