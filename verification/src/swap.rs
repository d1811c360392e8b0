//! The answer of the swap service, turned into instructions and lookup
//! tables of the engine.
use crate::address::{base58_decoded, Address};
use crate::connection::{base64_decoded, decode_base64_data};
use crate::error::Error;
use crate::instructions::{AccountMeta, Instruction};
use vstd::prelude::*;

verus! {

/// One account of an instruction, as the swap service names it.
#[derive(Clone, Copy, Debug)]
pub struct JupiterAccount {
    pub pubkey: Address,
    pub is_signer: bool,
    pub is_writable: bool,
}

/// One instruction as the swap service writes it, its payload in base 64.
#[derive(Debug)]
pub struct JupiterInstruction {
    pub program_id: Address,
    pub accounts: Vec<JupiterAccount>,
    pub data: String,
}

/// The instructions of one swap, as the swap service answers.
#[derive(Debug)]
pub struct JupiterIxsResponse {
    pub compute_budget_instructions: Option<Vec<JupiterInstruction>>,
    pub setup_instructions: Option<Vec<JupiterInstruction>>,
    pub swap_instruction: JupiterInstruction,
    pub cleanup_instruction: Option<Vec<JupiterInstruction>>,
    pub address_lookup_table_addresses: Vec<String>,
}

/// A lookup table: its own address and the addresses it holds.
#[derive(Debug)]
pub struct AddressLookupTableAccount {
    pub key: Address,
    pub addresses: Vec<Address>,
}

/// What a lookup table is, apart from where it is stored.
pub struct LookupTableView {
    pub key: Address,
    pub addresses: Seq<Address>,
}

impl View for AddressLookupTableAccount {
    type V = LookupTableView;

    open spec fn view(&self) -> LookupTableView {
        LookupTableView { key: self.key, addresses: self.addresses@ }
    }
}

/// What an instruction is, apart from where it is stored.
pub struct InstructionView {
    pub program_id: Address,
    pub accounts: Seq<AccountMeta>,
    pub data: Seq<u8>,
}

impl View for Instruction {
    type V = InstructionView;

    open spec fn view(&self) -> InstructionView {
        InstructionView { program_id: self.program_id, accounts: self.accounts@, data: self.data@ }
    }
}

/// The account that the swap service names.
pub open spec fn account_meta_of(account: JupiterAccount) -> AccountMeta {
    AccountMeta {
        pubkey: account.pubkey,
        is_signer: account.is_signer,
        is_writable: account.is_writable,
    }
}

/// The instruction that the swap service wrote, where its payload is base
/// 64.
pub open spec fn instruction_of(instruction: JupiterInstruction) -> Option<InstructionView> {
    match base64_decoded(instruction.data@) {
        Some(data) => Some(
            InstructionView {
                program_id: instruction.program_id,
                accounts: Seq::new(
                    instruction.accounts@.len(),
                    |i: int| account_meta_of(instruction.accounts@[i]),
                ),
                data,
            },
        ),
        None => None,
    }
}

/// The instructions of an answer in the order in which they are to run:
/// those for the compute budget, those that set up, the swap, and those
/// that clean up.
pub open spec fn ordered(response: JupiterIxsResponse) -> Seq<JupiterInstruction> {
    let budget = match response.compute_budget_instructions {
        Some(list) => list@,
        None => Seq::empty(),
    };
    let setup = match response.setup_instructions {
        Some(list) => list@,
        None => Seq::empty(),
    };
    let cleanup = match response.cleanup_instruction {
        Some(list) => list@,
        None => Seq::empty(),
    };
    budget + setup + seq![response.swap_instruction] + cleanup
}

impl JupiterAccount {
    /// The account as one of an instruction.
    pub fn into_account_meta(&self) -> (r: AccountMeta)
        ensures
            r == account_meta_of(*self),
    {
        AccountMeta {
            pubkey: self.pubkey,
            is_signer: self.is_signer,
            is_writable: self.is_writable,
        }
    }
}

impl JupiterInstruction {
    /// The instruction, with its payload decoded.
    pub fn into_instruction(&self) -> (r: Result<Instruction, Error>)
        ensures
            match r {
                Ok(ix) => instruction_of(*self) == Some(ix@),
                Err(e) => instruction_of(*self) is None && e == Error::UnableToDecode,
            },
    {
        let bytes = match decode_base64_data(&self.data) {
            Some(b) => b,
            None => {
                return Err(Error::UnableToDecode);
            },
        };
        let mut accounts: Vec<AccountMeta> = Vec::new();
        let mut i: usize = 0;
        while i < self.accounts.len()
            invariant
                i <= self.accounts.len(),
                accounts@.len() == i,
                forall|j: int| 0 <= j < i ==> accounts@[j] == account_meta_of(self.accounts@[j]),
            decreases self.accounts.len() - i,
        {
            accounts.push(self.accounts[i].into_account_meta());
            i = i + 1;
        }
        let ix = Instruction { program_id: self.program_id, accounts, data: bytes };
        assert(ix@.accounts =~= instruction_of(*self).unwrap().accounts);
        Ok(ix)
    }
}

/// Adds the instructions of a list to those that are to be converted.
fn gather<'a>(all: &mut Vec<&'a JupiterInstruction>, list: &'a Option<Vec<JupiterInstruction>>)
    ensures
        final(all)@.len() == old(all)@.len() + (match *list {
            Some(l) => l@.len(),
            None => 0,
        }),
        forall|i: int| 0 <= i < old(all)@.len() ==> final(all)@[i] == old(all)@[i],
        forall|i: int|
            old(all)@.len() <= i < final(all)@.len() ==> *final(all)@[i] == list.unwrap()@[i - old(
                all,
            )@.len()],
{
    match list {
        Some(l) => {
            let ghost before = all@;
            let mut i: usize = 0;
            while i < l.len()
                invariant
                    i <= l.len(),
                    all@.len() == before.len() + i,
                    forall|k: int| 0 <= k < before.len() ==> all@[k] == before[k],
                    forall|k: int| before.len() <= k < all@.len() ==> *all@[k] == l@[k - before.len()],
                decreases l.len() - i,
            {
                all.push(&l[i]);
                i = i + 1;
            }
        },
        None => {},
    }
}

impl JupiterIxsResponse {
    /// The instructions of the answer in the order in which they are to
    /// run. A payload that is not base 64 is an error.
    pub fn into_instructions(&self) -> (r: Result<Vec<Instruction>, Error>)
        ensures
            match r {
                Ok(ixs) => {
                    &&& ixs@.len() == ordered(*self).len()
                    &&& forall|i: int|
                        0 <= i < ixs@.len() ==> instruction_of(ordered(*self)[i]) == Some(
                            (#[trigger] ixs@[i])@,
                        )
                },
                Err(e) => e == Error::UnableToDecode && exists|i: int|
                    0 <= i < ordered(*self).len() && instruction_of(#[trigger] ordered(*self)[i])
                        is None,
            },
    {
        let mut all: Vec<&JupiterInstruction> = Vec::new();
        gather(&mut all, &self.compute_budget_instructions);
        gather(&mut all, &self.setup_instructions);
        all.push(&self.swap_instruction);
        gather(&mut all, &self.cleanup_instruction);
        proof {
            let o = ordered(*self);
            assert(all@.len() == o.len());
            assert forall|i: int| 0 <= i < all@.len() implies *all@[i] == o[i] by {}
        }
        let mut ixs: Vec<Instruction> = Vec::new();
        let mut i: usize = 0;
        while i < all.len()
            invariant
                i <= all.len(),
                ixs@.len() == i,
                all@.len() == ordered(*self).len(),
                forall|k: int| 0 <= k < all@.len() ==> *all@[k] == ordered(*self)[k],
                forall|k: int|
                    0 <= k < i ==> instruction_of(ordered(*self)[k]) == Some((#[trigger] ixs@[k])@),
            decreases all.len() - i,
        {
            match all[i].into_instruction() {
                Ok(ix) => {
                    ixs.push(ix);
                },
                Err(e) => {
                    assert(instruction_of(ordered(*self)[i as int]) is None);
                    return Err(e);
                },
            }
            i = i + 1;
        }
        Ok(ixs)
    }
}

/// The addresses that texts in base 58 stand for. A text that is no address
/// is an error.
pub fn parse_addresses(texts: &Vec<String>) -> (r: Result<Vec<Address>, Error>)
    ensures
        match r {
            Ok(addresses) => {
                &&& addresses@.len() == texts@.len()
                &&& forall|i: int|
                    0 <= i < texts@.len() ==> base58_decoded(texts@[i]@) == Some(
                        (#[trigger] addresses@[i])@,
                    )
            },
            Err(e) => e == Error::UnableToDecode && exists|i: int|
                0 <= i < texts@.len() && base58_decoded((#[trigger] texts@[i])@) is None,
        },
{
    let mut addresses: Vec<Address> = Vec::new();
    let mut i: usize = 0;
    while i < texts.len()
        invariant
            i <= texts.len(),
            addresses@.len() == i,
            forall|k: int|
                0 <= k < i ==> base58_decoded(texts@[k]@) == Some((#[trigger] addresses@[k])@),
        decreases texts.len() - i,
    {
        match Address::from_base58(texts[i].as_str()) {
            Some(address) => {
                addresses.push(address);
            },
            None => {
                return Err(Error::UnableToDecode);
            },
        }
        i = i + 1;
    }
    Ok(addresses)
}

/// The addresses that the account of a lookup table holds, where the data
/// is that of an initialized table.
pub uninterp spec fn lookup_table_addresses(data: Seq<u8>) -> Option<Seq<Seq<u8>>>;

/// The bytes of each address of a list.
pub open spec fn bytes_of(addresses: Seq<Address>) -> Seq<Seq<u8>> {
    Seq::new(addresses.len(), |i: int| addresses[i]@)
}

/// Reads the account of a lookup table with
/// `solana_address_lookup_table_program::state::AddressLookupTable::deserialize`,
/// which gives an error for data that does not begin as an initialized
/// table or whose rest is not a whole number of addresses. The result
/// depends on the data alone.
#[verifier::external_body]
fn deserialize_lookup_table(data: &Vec<u8>) -> (r: Option<Vec<Address>>)
    ensures
        match r {
            Some(addresses) => lookup_table_addresses(data@) == Some(bytes_of(addresses@)),
            None => lookup_table_addresses(data@) is None,
        },
{
    match solana_address_lookup_table_program::state::AddressLookupTable::deserialize(data) {
        Ok(table) => Some(table.addresses.iter().map(|key| Address::new(key.to_bytes())).collect()),
        Err(_) => None,
    }
}

/// Whether the account at place `i` gives a lookup table.
pub open spec fn is_table(accounts: Seq<Option<Vec<u8>>>, i: int) -> bool {
    match accounts[i] {
        Some(data) => lookup_table_addresses(data@) is Some,
        None => false,
    }
}

/// The places of the accounts that give a lookup table, among the first `n`
/// accounts, in their order.
pub open spec fn table_places(accounts: Seq<Option<Vec<u8>>>, n: nat) -> Seq<int>
    decreases n,
{
    if n == 0 {
        Seq::empty()
    } else {
        let before = table_places(accounts, (n - 1) as nat);
        if is_table(accounts, n - 1) {
            before.push(n - 1)
        } else {
            before
        }
    }
}

/// Whether a table was read from the account at `place`, one of the first
/// `bound` accounts, and has the address that was asked for at that place.
pub open spec fn is_table_from(
    table: AddressLookupTableAccount,
    alt_addresses: Seq<Address>,
    accounts: Seq<Option<Vec<u8>>>,
    place: int,
    bound: int,
) -> bool {
    &&& 0 <= place < bound
    &&& accounts[place] is Some
    &&& table.key == alt_addresses[place]
    &&& lookup_table_addresses(accounts[place].unwrap()@) == Some(bytes_of(table.addresses@))
}

/// The lookup tables among the accounts that were fetched for the given
/// addresses, in their order: an account that is missing, or that is no
/// lookup table, is passed over.
pub fn lookup_tables_of(alt_addresses: &Vec<Address>, accounts: &Vec<Option<Vec<u8>>>) -> (r: Vec<
    AddressLookupTableAccount,
>)
    requires
        accounts@.len() <= alt_addresses@.len(),
    ensures
        r@.len() == table_places(accounts@, accounts@.len()).len(),
        forall|k: int|
            0 <= k < r@.len() ==> #[trigger] is_table_from(
                r@[k],
                alt_addresses@,
                accounts@,
                table_places(accounts@, accounts@.len())[k],
                accounts@.len() as int,
            ),
{
    let mut tables: Vec<AddressLookupTableAccount> = Vec::new();
    let mut i: usize = 0;
    while i < accounts.len()
        invariant
            i <= accounts.len(),
            accounts@.len() <= alt_addresses@.len(),
            tables@.len() == table_places(accounts@, i as nat).len(),
            forall|k: int|
                0 <= k < tables@.len() ==> #[trigger] is_table_from(
                    tables@[k],
                    alt_addresses@,
                    accounts@,
                    table_places(accounts@, i as nat)[k],
                    i as int,
                ),
        decreases accounts.len() - i,
    {
        let ghost before = tables@;
        let ghost places = table_places(accounts@, i as nat);
        match &accounts[i] {
            Some(data) => {
                match deserialize_lookup_table(data) {
                    Some(addresses) => {
                        tables.push(AddressLookupTableAccount { key: alt_addresses[i], addresses });
                    },
                    None => {},
                }
            },
            None => {},
        }
        proof {
            let next = table_places(accounts@, (i + 1) as nat);
            assert(next == if is_table(accounts@, i as int) {
                places.push(i as int)
            } else {
                places
            });
            assert(tables@.len() == next.len());
            assert forall|k: int| 0 <= k < tables@.len() implies #[trigger] is_table_from(
                tables@[k],
                alt_addresses@,
                accounts@,
                next[k],
                i + 1,
            ) by {
                if k < before.len() {
                    assert(tables@[k] == before[k]);
                    assert(next[k] == places[k]);
                    assert(is_table_from(before[k], alt_addresses@, accounts@, places[k], i as int));
                } else {
                    assert(next[k] == i);
                }
            }
        }
        i = i + 1;
    }
    tables
}

} // verus!
