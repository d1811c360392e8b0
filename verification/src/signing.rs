//! The building and the signing of a transaction, once a recent blockhash is
//! known.
//!
//! The message is compiled and signed by `solana_sdk`; what it gives back is
//! carried through as it is. This module says in which order the steps are
//! taken and which error each failure becomes.
use crate::address::Address;
use crate::decimal::{bytes_from, parse_byte_list};
use crate::error::ClientTransactionError;
use crate::instructions::Instruction;
use crate::swap::{AddressLookupTableAccount, InstructionView, LookupTableView};
use solana_sdk::address_lookup_table_account::AddressLookupTableAccount as SdkLookupTable;
use solana_sdk::instruction::AccountMeta as SdkAccountMeta;
use solana_sdk::instruction::Instruction as SdkInstruction;
use solana_sdk::message::v0::Message;
use solana_sdk::message::VersionedMessage;
use solana_sdk::pubkey::Pubkey;
use solana_sdk::signature::Keypair;
use solana_sdk::transaction::VersionedTransaction;
use vstd::prelude::*;

verus! {

/// A compiled message of version 0, as `solana_sdk` holds it.
#[verifier::external_type_specification]
#[verifier::external_body]
pub struct ExV0Message(solana_sdk::message::v0::Message);

/// A signed transaction, as `solana_sdk` holds it.
#[verifier::external_type_specification]
#[verifier::external_body]
pub struct ExVersionedTransaction(solana_sdk::transaction::VersionedTransaction);

/// A pair of keys, as `solana_sdk` holds it.
#[verifier::external_type_specification]
#[verifier::external_body]
pub struct ExKeypair(solana_sdk::signature::Keypair);

/// The wallet that pays and signs: its keys, and its address.
#[derive(Debug)]
pub struct Wallet {
    pub keypair: Keypair,
    pub pubkey: Address,
}

/// The most entries that a list in a message can have: its length is
/// written in sixteen bits.
pub const MAX_LIST_LEN: usize = 65535;

/// Whether a message can hold the instructions: not more of them than a
/// list can have, and in none of them more accounts or more bytes of data
/// than that.
pub open spec fn fits_a_message(instructions: Seq<InstructionView>) -> bool {
    &&& instructions.len() <= MAX_LIST_LEN
    &&& forall|i: int|
        0 <= i < instructions.len() ==> (#[trigger] instructions[i]).accounts.len()
            <= MAX_LIST_LEN && instructions[i].data.len() <= MAX_LIST_LEN
}

/// Whether a message was compiled from instructions that a message can
/// hold.
pub open spec fn is_compiled(message: Message) -> bool {
    exists|
        payer: Seq<u8>,
        instructions: Seq<InstructionView>,
        tables: Seq<LookupTableView>,
        blockhash: Seq<u8>,
    |
        fits_a_message(instructions) && #[trigger] compiled_message(
            payer,
            instructions,
            tables,
            blockhash,
        ) == Some(message)
}

/// A message that was compiled from instructions that a message can hold.
/// Only `compile_transaction` makes one, so that whatever is signed can be
/// written out.
pub struct CompiledMessage {
    message: Message,
    payer: Ghost<Seq<u8>>,
    instructions: Ghost<Seq<InstructionView>>,
    tables: Ghost<Seq<LookupTableView>>,
    blockhash: Ghost<Seq<u8>>,
}

impl View for CompiledMessage {
    type V = Message;

    closed spec fn view(&self) -> Message {
        self.message
    }
}

impl CompiledMessage {
    #[verifier::type_invariant]
    spec fn well_formed(self) -> bool {
        &&& fits_a_message(self.instructions@)
        &&& compiled_message(self.payer@, self.instructions@, self.tables@, self.blockhash@)
            == Some(self.message)
    }

    /// The message as `solana_sdk` holds it.
    pub fn as_message(&self) -> (r: &Message)
        ensures
            *r == self@,
            is_compiled(self@),
    {
        proof {
            use_type_invariant(self);
        }
        &self.message
    }
}

/// The pair of keys that 64 bytes are, where they are one: the secret key,
/// and then a public key that is a point of the curve.
pub uninterp spec fn keypair_of(bytes: Seq<u8>) -> Option<Keypair>;

/// The bytes of the public key of a pair of keys.
pub uninterp spec fn keypair_pubkey(keypair: Keypair) -> Seq<u8>;

/// The message that the instructions of `payer` compile to, with the lookup
/// tables, against a blockhash, where they compile.
pub uninterp spec fn compiled_message(
    payer: Seq<u8>,
    instructions: Seq<InstructionView>,
    tables: Seq<LookupTableView>,
    blockhash: Seq<u8>,
) -> Option<Message>;

/// The transaction that a message becomes when the keys sign it, where they
/// are the keys that the message asks for.
pub uninterp spec fn signed_transaction(message: Message, keypair: Keypair) -> Option<
    VersionedTransaction,
>;

/// Whether a transaction passes the check of its form.
pub uninterp spec fn transaction_is_sane(transaction: VersionedTransaction) -> bool;

/// What each instruction of a list is.
pub open spec fn instruction_views(instructions: Seq<Instruction>) -> Seq<InstructionView> {
    Seq::new(instructions.len(), |i: int| instructions[i]@)
}

/// What each lookup table of a list is.
pub open spec fn table_views(tables: Seq<AddressLookupTableAccount>) -> Seq<LookupTableView> {
    Seq::new(tables.len(), |i: int| tables[i]@)
}

/// What becomes of an attempt to compile: the message, or
/// `UnableToCompile`.
pub open spec fn compile_outcome(result: Option<Message>) -> Result<
    Message,
    ClientTransactionError,
> {
    match result {
        Some(message) => Ok(message),
        None => Err(ClientTransactionError::UnableToCompile),
    }
}

/// What becomes of an attempt to sign and of the check that follows it: the
/// transaction where it was signed and is sane, `MissingSigner` where it was
/// not signed, and `MissingSignature` where it is not sane.
pub open spec fn sign_outcome(result: Option<VersionedTransaction>, sane: bool) -> Result<
    VersionedTransaction,
    ClientTransactionError,
> {
    match result {
        Some(transaction) => if sane {
            Ok(transaction)
        } else {
            Err(ClientTransactionError::MissingSignature)
        },
        None => Err(ClientTransactionError::MissingSigner),
    }
}

/// The transaction that the keys make of a message, or the error with which
/// the signing or the check of the transaction fails.
pub open spec fn signed_and_checked(message: Message, keypair: Keypair) -> Result<
    VersionedTransaction,
    ClientTransactionError,
> {
    match signed_transaction(message, keypair) {
        Some(transaction) => sign_outcome(Some(transaction), transaction_is_sane(transaction)),
        None => Err(ClientTransactionError::MissingSigner),
    }
}

/// The wallet whose keys the bytes are: the keys, and as its address their
/// public key, the second half of the bytes.
pub open spec fn is_wallet_of(wallet: Wallet, bytes: Seq<u8>) -> bool {
    &&& keypair_of(bytes) == Some(wallet.keypair)
    &&& bytes.len() == 64
    &&& wallet.pubkey@ == keypair_pubkey(wallet.keypair)
    &&& wallet.pubkey@ == bytes.subrange(32, 64)
}

/// Reads a pair of keys with `solana_sdk::signature::Keypair::from_bytes`,
/// which takes 64 bytes, the secret key and then the public key, and gives
/// an error for any other length and for a public key that is no point of
/// the curve. It keeps the public key as it was given, so the public key of
/// the pair is the second half of the bytes. The result depends on the bytes
/// alone.
#[verifier::external_body]
fn keypair_from_bytes(bytes: &Vec<u8>) -> (r: Option<Keypair>)
    ensures
        r == keypair_of(bytes@),
        match r {
            Some(keypair) => bytes@.len() == 64 && keypair_pubkey(keypair) == bytes@.subrange(
                32,
                64,
            ),
            None => true,
        },
{
    Keypair::from_bytes(bytes).ok()
}

/// The address of a pair of keys, its public key, with the `pubkey` that
/// `solana_sdk::signer::Signer` gives a `Keypair`. The result depends on the
/// keys alone.
#[verifier::external_body]
fn keypair_address(keypair: &Keypair) -> (r: Address)
    ensures
        r@ == keypair_pubkey(*keypair),
{
    Address::new(solana_sdk::signer::Signer::pubkey(keypair).to_bytes())
}

impl Wallet {
    /// The wallet whose keys are the given 64 bytes, with the public key as
    /// its address. Nothing for bytes of another length, or for bytes that
    /// are no keys.
    pub fn from_bytes(bytes: &Vec<u8>) -> (r: Option<Wallet>)
        ensures
            match r {
                Some(wallet) => is_wallet_of(wallet, bytes@),
                None => keypair_of(bytes@) is None,
            },
    {
        match keypair_from_bytes(bytes) {
            Some(keypair) => {
                let pubkey = keypair_address(&keypair);
                Some(Wallet { keypair, pubkey })
            },
            None => None,
        }
    }

    /// The wallet whose keys are written as 64 numbers parted by commas.
    /// Nothing for a text that is no list of bytes, and for bytes that are
    /// no keys.
    pub fn from_private_key(text: &str) -> (r: Option<Wallet>)
        ensures
            match r {
                Some(wallet) => bytes_from(text@, 0) is Some && is_wallet_of(
                    wallet,
                    bytes_from(text@, 0).unwrap(),
                ),
                None => bytes_from(text@, 0) is None || keypair_of(bytes_from(text@, 0).unwrap())
                    is None,
            },
    {
        match parse_byte_list(text) {
            Some(bytes) => Wallet::from_bytes(&bytes),
            None => None,
        }
    }
}

/// Compiles a message with `solana_sdk::message::v0::Message::try_compile`,
/// after the instructions and the lookup tables are written as those of
/// `solana_sdk`, field by field. That function gives an error where the
/// instructions name more accounts than a message holds or an address
/// cannot be placed. The result depends on the payer, the instructions, the
/// tables and the blockhash alone.
#[verifier::external_body]
fn try_compile_message(
    payer: &Address,
    instructions: &Vec<Instruction>,
    tables: &Vec<AddressLookupTableAccount>,
    blockhash: &[u8; 32],
) -> (r: Option<Message>)
    ensures
        r == compiled_message(
            payer@,
            instruction_views(instructions@),
            table_views(tables@),
            blockhash@,
        ),
{
    let key = |a: &Address| Pubkey::new_from_array(a.bytes);
    let ixs: Vec<_> = instructions.iter().map(|ix| SdkInstruction {
        program_id: key(&ix.program_id),
        accounts: ix.accounts.iter().map(|a| SdkAccountMeta {
            pubkey: key(&a.pubkey),
            is_signer: a.is_signer,
            is_writable: a.is_writable,
        }).collect(),
        data: ix.data.clone(),
    }).collect();
    let alts: Vec<_> = tables.iter().map(|t| SdkLookupTable {
        key: key(&t.key),
        addresses: t.addresses.iter().map(key).collect(),
    }).collect();
    Message::try_compile(&key(payer), &ixs, &alts, (*blockhash).into()).ok()
}

/// Signs a message with
/// `solana_sdk::transaction::VersionedTransaction::try_new`, which gives an
/// error where the keys are not those of the signers that the message asks
/// for. The result depends on the message and the keys alone. That function
/// writes the message out before it signs it, and does not return where a
/// list of the message has more than 65535 entries. A compiled message has
/// at most 256 keys and as many lookups, and its instructions have the
/// counts, the accounts and the data of those it was compiled from; so only
/// messages that were compiled from instructions within that bound are
/// taken.
#[verifier::external_body]
fn try_sign_message(message: Message, keypair: &Keypair) -> (r: Option<VersionedTransaction>)
    requires
        is_compiled(message),
    ensures
        r == signed_transaction(message, *keypair),
{
    VersionedTransaction::try_new(VersionedMessage::V0(message), &[keypair]).ok()
}

/// Checks a transaction with
/// `solana_sdk::transaction::VersionedTransaction::sanitize`, with programs
/// that must be named in the message itself. The result depends on the
/// transaction alone.
#[verifier::external_body]
fn is_sane(transaction: &VersionedTransaction) -> (r: bool)
    ensures
        r == transaction_is_sane(*transaction),
{
    transaction.sanitize(true).is_ok()
}

/// What becomes of an attempt to compile: the message, or
/// `UnableToCompile`.
pub fn compiled(result: Option<Message>) -> (r: Result<Message, ClientTransactionError>)
    ensures
        r == compile_outcome(result),
{
    match result {
        Some(message) => Ok(message),
        None => Err(ClientTransactionError::UnableToCompile),
    }
}

/// What becomes of an attempt to sign and of the check that follows it: the
/// transaction where it was signed and is sane, `MissingSigner` where it was
/// not signed, and `MissingSignature` where it is not sane.
pub fn signed(result: Option<VersionedTransaction>, sane: bool) -> (r: Result<
    VersionedTransaction,
    ClientTransactionError,
>)
    ensures
        r == sign_outcome(result, sane),
{
    match result {
        Some(transaction) => if sane {
            Ok(transaction)
        } else {
            Err(ClientTransactionError::MissingSignature)
        },
        None => Err(ClientTransactionError::MissingSigner),
    }
}

/// Whether a message can hold the instructions.
pub fn instructions_fit(instructions: &Vec<Instruction>) -> (r: bool)
    ensures
        r == fits_a_message(instruction_views(instructions@)),
{
    if instructions.len() > MAX_LIST_LEN {
        return false;
    }
    let mut i: usize = 0;
    while i < instructions.len()
        invariant
            i <= instructions.len() <= MAX_LIST_LEN,
            forall|j: int|
                0 <= j < i ==> (#[trigger] instruction_views(instructions@)[j]).accounts.len()
                    <= MAX_LIST_LEN && instruction_views(instructions@)[j].data.len()
                    <= MAX_LIST_LEN,
        decreases instructions.len() - i,
    {
        if instructions[i].accounts.len() > MAX_LIST_LEN || instructions[i].data.len()
            > MAX_LIST_LEN {
            assert(instruction_views(instructions@)[i as int] == instructions@[i as int]@);
            return false;
        }
        assert(instruction_views(instructions@)[i as int] == instructions@[i as int]@);
        i = i + 1;
    }
    true
}

/// The message that the instructions compile to, or `UnableToCompile`
/// where a message cannot hold them or they do not compile.
pub open spec fn compile_result(
    payer: Seq<u8>,
    instructions: Seq<InstructionView>,
    tables: Seq<LookupTableView>,
    blockhash: Seq<u8>,
) -> Result<Message, ClientTransactionError> {
    if fits_a_message(instructions) {
        compile_outcome(compiled_message(payer, instructions, tables, blockhash))
    } else {
        Err(ClientTransactionError::UnableToCompile)
    }
}

/// Compiles the instructions, with the lookup tables, against a blockhash
/// into a message that `payer` pays for. Instructions that a message cannot
/// hold, and a failure to compile, are `UnableToCompile`.
pub fn compile_transaction(
    payer: &Address,
    instructions: &Vec<Instruction>,
    address_lookup_tables: &Vec<AddressLookupTableAccount>,
    blockhash: &[u8; 32],
) -> (r: Result<CompiledMessage, ClientTransactionError>)
    ensures
        match r {
            Ok(compiled) => compile_result(
                payer@,
                instruction_views(instructions@),
                table_views(address_lookup_tables@),
                blockhash@,
            ) == Ok::<Message, ClientTransactionError>(compiled@),
            Err(e) => compile_result(
                payer@,
                instruction_views(instructions@),
                table_views(address_lookup_tables@),
                blockhash@,
            ) == Err::<Message, ClientTransactionError>(e),
        },
{
    if !instructions_fit(instructions) {
        return Err(ClientTransactionError::UnableToCompile);
    }
    match compiled(try_compile_message(payer, instructions, address_lookup_tables, blockhash)) {
        Ok(message) => Ok(
            CompiledMessage {
                message,
                payer: Ghost(payer@),
                instructions: Ghost(instruction_views(instructions@)),
                tables: Ghost(table_views(address_lookup_tables@)),
                blockhash: Ghost(blockhash@),
            },
        ),
        Err(e) => Err(e),
    }
}

/// Signs a compiled message with the keys of the wallet and checks the
/// transaction. A failure to sign is `MissingSigner`, and a transaction
/// that is not sane is `MissingSignature`.
pub fn sign_transaction(signer: &Wallet, message: CompiledMessage) -> (r: Result<
    VersionedTransaction,
    ClientTransactionError,
>)
    ensures
        r == signed_and_checked(message@, signer.keypair),
{
    proof {
        use_type_invariant(&message);
    }
    match try_sign_message(message.message, &signer.keypair) {
        Some(transaction) => {
            let sane = is_sane(&transaction);
            signed(Some(transaction), sane)
        },
        None => signed(None, false),
    }
}

/// Builds a signed transaction of the instructions: compiles them against
/// the blockhash into a message that the wallet pays for, signs the message
/// with the keys of the wallet, and checks the result. Instructions that a
/// message cannot hold, and a failure to compile, are `UnableToCompile`; a
/// failure to sign is `MissingSigner`, and a transaction that is not sane is
/// `MissingSignature`.
pub fn build_signed_transaction(
    signer: &Wallet,
    instructions: &Vec<Instruction>,
    address_lookup_tables: &Vec<AddressLookupTableAccount>,
    blockhash: &[u8; 32],
) -> (r: Result<VersionedTransaction, ClientTransactionError>)
    ensures
        r == (match compile_result(
            signer.pubkey@,
            instruction_views(instructions@),
            table_views(address_lookup_tables@),
            blockhash@,
        ) {
            Ok(message) => signed_and_checked(message, signer.keypair),
            Err(e) => Err(e),
        }),
{
    match compile_transaction(&signer.pubkey, instructions, address_lookup_tables, blockhash) {
        Ok(message) => sign_transaction(signer, message),
        Err(e) => Err(e),
    }
}

} // verus!
