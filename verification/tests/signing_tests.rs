use margin_engine::address::Address;
use margin_engine::error::ClientTransactionError;
use margin_engine::instructions::{AccountMeta, Instruction};
use margin_engine::signing::{
    build_signed_transaction, compile_transaction, compiled, instructions_fit, sign_transaction,
    signed, Wallet, MAX_LIST_LEN,
};
use margin_engine::swap::AddressLookupTableAccount;
use solana_sdk::signature::{Keypair, Signer};

fn key(tag: u8) -> Address {
    let mut bytes = [8u8; 32];
    bytes[0] = tag;
    Address::new(bytes)
}

fn numbered(n: u16) -> Address {
    let mut bytes = [0u8; 32];
    bytes[0] = (n % 256) as u8;
    bytes[1] = (n / 256) as u8;
    bytes[31] = 1;
    Address::new(bytes)
}

fn wallet() -> Wallet {
    let keypair = Keypair::new();
    let pubkey = Address::new(keypair.pubkey().to_bytes());
    Wallet { keypair, pubkey }
}

fn transfer(from: Address) -> Instruction {
    Instruction {
        program_id: key(100),
        accounts: vec![AccountMeta::new(from, true), AccountMeta::new_readonly(key(2), false)],
        data: vec![1, 2, 3],
    }
}

#[test]
fn a_transaction_is_built_and_signed() {
    let signer = wallet();
    let instructions = vec![transfer(signer.pubkey)];
    let tx = build_signed_transaction(&signer, &instructions, &Vec::new(), &[7u8; 32]).unwrap();
    assert_eq!(tx.signatures.len(), 1);
    assert!(tx.verify_with_results().iter().all(|ok| *ok));
    let keys = tx.message.static_account_keys();
    assert_eq!(keys.len(), 3);
    assert_eq!(keys[0].to_bytes(), signer.pubkey.to_bytes());
    assert_eq!(keys[1].to_bytes(), key(2).to_bytes());
    assert_eq!(keys[2].to_bytes(), key(100).to_bytes());
    assert_eq!(tx.message.recent_blockhash().to_bytes(), [7u8; 32]);
    assert_eq!(tx.message.instructions().len(), 1);
    assert_eq!(tx.message.instructions()[0].data, vec![1u8, 2, 3]);
}

#[test]
fn a_lookup_table_takes_the_accounts_it_holds() {
    let signer = wallet();
    let instructions = vec![transfer(signer.pubkey)];
    let tables = vec![AddressLookupTableAccount { key: key(50), addresses: vec![key(9), key(2)] }];
    let tx = build_signed_transaction(&signer, &instructions, &tables, &[7u8; 32]).unwrap();
    assert_eq!(tx.message.static_account_keys().len(), 2);
    let lookups = tx.message.address_table_lookups().unwrap();
    assert_eq!(lookups.len(), 1);
    assert_eq!(lookups[0].account_key.to_bytes(), key(50).to_bytes());
    assert_eq!(lookups[0].readonly_indexes, vec![1u8]);
    let without = build_signed_transaction(&signer, &instructions, &Vec::new(), &[7u8; 32]).unwrap();
    assert!(without.message.address_table_lookups().unwrap().is_empty());
}

#[test]
fn a_wallet_with_the_wrong_keys_is_a_missing_signer() {
    let mut signer = wallet();
    signer.pubkey = key(1);
    let instructions = vec![transfer(key(1))];
    let r = build_signed_transaction(&signer, &instructions, &Vec::new(), &[7u8; 32]);
    assert_eq!(r.err(), Some(ClientTransactionError::MissingSigner));
    let message = compile_transaction(&key(1), &instructions, &Vec::new(), &[7u8; 32]).unwrap();
    assert_eq!(sign_transaction(&signer, message).err(), Some(ClientTransactionError::MissingSigner));
}

#[test]
fn a_second_signer_without_keys_is_a_missing_signer() {
    let signer = wallet();
    let mut instruction = transfer(signer.pubkey);
    instruction.accounts.push(AccountMeta::new(key(3), true));
    let r = build_signed_transaction(&signer, &vec![instruction], &Vec::new(), &[7u8; 32]);
    assert_eq!(r.err(), Some(ClientTransactionError::MissingSigner));
}

#[test]
fn too_many_accounts_cannot_be_compiled() {
    let signer = wallet();
    let mut instruction = transfer(signer.pubkey);
    let mut n: u16 = 0;
    while n < 300 {
        instruction.accounts.push(AccountMeta::new_readonly(numbered(n), false));
        n += 1;
    }
    let r = build_signed_transaction(&signer, &vec![instruction], &Vec::new(), &[7u8; 32]);
    assert_eq!(r.err(), Some(ClientTransactionError::UnableToCompile));
}

#[test]
fn the_steps_give_their_own_errors() {
    assert_eq!(compiled(None).err(), Some(ClientTransactionError::UnableToCompile));
    assert!(compiled(Some(solana_sdk::message::v0::Message::default())).is_ok());
    assert_eq!(signed(None, true).err(), Some(ClientTransactionError::MissingSigner));
    assert_eq!(signed(None, false).err(), Some(ClientTransactionError::MissingSigner));
    let tx = solana_sdk::transaction::VersionedTransaction::default();
    assert_eq!(signed(Some(tx), false).err(), Some(ClientTransactionError::MissingSignature));
    let tx = solana_sdk::transaction::VersionedTransaction::default();
    assert!(signed(Some(tx), true).is_ok());
}

#[test]
fn a_wallet_is_read_from_its_keys() {
    let keypair = Keypair::new();
    let bytes = keypair.to_bytes().to_vec();
    let wallet = Wallet::from_bytes(&bytes).unwrap();
    assert_eq!(wallet.pubkey.to_bytes(), keypair.pubkey().to_bytes());
    assert_eq!(wallet.pubkey.to_bytes().to_vec(), bytes[32..].to_vec());
    assert_eq!(wallet.keypair.to_bytes().to_vec(), bytes);
    assert!(Wallet::from_bytes(&bytes[..63].to_vec()).is_none());
    assert!(Wallet::from_bytes(&Vec::new()).is_none());
    let text = bytes.iter().map(|b| b.to_string()).collect::<Vec<String>>().join(",");
    let wallet = Wallet::from_private_key(&text).unwrap();
    assert_eq!(wallet.pubkey.to_bytes(), keypair.pubkey().to_bytes());
    assert!(Wallet::from_private_key("1,2,3").is_none());
    assert!(Wallet::from_private_key("").is_none());
    assert!(Wallet::from_private_key(&format!("{},", text)).is_none());
    assert!(Wallet::from_private_key(&text.replace(",", ";")).is_none());
}

#[test]
fn the_same_inputs_give_the_same_transaction() {
    let signer = wallet();
    let instructions = vec![transfer(signer.pubkey)];
    let tables = vec![AddressLookupTableAccount { key: key(50), addresses: vec![key(9), key(2)] }];
    let first = build_signed_transaction(&signer, &instructions, &tables, &[7u8; 32]).unwrap();
    let second = build_signed_transaction(&signer, &instructions, &tables, &[7u8; 32]).unwrap();
    assert_eq!(first, second);
    let message = compile_transaction(&signer.pubkey, &instructions, &tables, &[7u8; 32]).unwrap();
    assert_eq!(
        first.message,
        solana_sdk::message::VersionedMessage::V0(message.as_message().clone())
    );
    let alone = sign_transaction(&signer, message).unwrap();
    assert_eq!(alone, first);
    let other = build_signed_transaction(&signer, &instructions, &tables, &[8u8; 32]).unwrap();
    assert_ne!(other, first);
    let bytes = signer.keypair.to_bytes().to_vec();
    let again = Wallet::from_bytes(&bytes).unwrap();
    assert_eq!(again.keypair.to_bytes(), signer.keypair.to_bytes());
    let resigned = build_signed_transaction(&again, &instructions, &tables, &[7u8; 32]).unwrap();
    assert_eq!(resigned, first);
}

#[test]
fn instructions_that_a_message_cannot_hold_are_not_compiled() {
    let signer = wallet();
    assert_eq!(MAX_LIST_LEN, 65535);
    let mut large = transfer(signer.pubkey);
    large.data = vec![0u8; 65536];
    assert!(!instructions_fit(&vec![transfer(signer.pubkey), large]));
    let mut large = transfer(signer.pubkey);
    large.data = vec![0u8; 65536];
    let r = build_signed_transaction(&signer, &vec![large], &Vec::new(), &[7u8; 32]);
    assert_eq!(r.err(), Some(ClientTransactionError::UnableToCompile));
    let mut wide = transfer(signer.pubkey);
    wide.accounts = vec![AccountMeta::new_readonly(key(2), false); 65536];
    let r = compile_transaction(&signer.pubkey, &vec![wide], &Vec::new(), &[7u8; 32]);
    assert_eq!(r.err(), Some(ClientTransactionError::UnableToCompile));
    let mut many: Vec<Instruction> = Vec::new();
    let mut n: u32 = 0;
    while n < 65536 {
        many.push(Instruction { program_id: key(100), accounts: Vec::new(), data: Vec::new() });
        n += 1;
    }
    assert!(!instructions_fit(&many));
    let r = build_signed_transaction(&signer, &many, &Vec::new(), &[7u8; 32]);
    assert_eq!(r.err(), Some(ClientTransactionError::UnableToCompile));
}

#[test]
fn instructions_at_the_bound_are_compiled_and_signed() {
    let signer = wallet();
    let mut large = transfer(signer.pubkey);
    large.data = vec![1u8; 65535];
    large.accounts = vec![AccountMeta::new_readonly(key(2), false); 65535];
    assert!(instructions_fit(&vec![transfer(signer.pubkey)]));
    assert!(instructions_fit(&Vec::new()));
    let tx = build_signed_transaction(&signer, &vec![large], &Vec::new(), &[7u8; 32]).unwrap();
    assert_eq!(tx.message.instructions()[0].data.len(), 65535);
    assert_eq!(tx.message.instructions()[0].accounts.len(), 65535);
    assert!(tx.verify_with_results().iter().all(|ok| *ok));
}
