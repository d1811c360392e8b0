use vstd::prelude::*;
use vstd::std_specs::cmp::PartialEqSpecImpl;

verus! {

/// The 32-byte identity of an account, a mint or a program.
#[derive(Clone, Copy, Debug, Eq)]
pub struct Address {
    pub bytes: [u8; 32],
}

impl View for Address {
    type V = Seq<u8>;

    open spec fn view(&self) -> Seq<u8> {
        self.bytes@
    }
}

impl PartialEq for Address {
    fn eq(&self, other: &Self) -> (r: bool) {
        let mut i: usize = 0;
        while i < 32
            invariant
                i <= 32,
                forall|j: int| 0 <= j < i ==> self.bytes@[j] == other.bytes@[j],
            decreases 32 - i,
        {
            if self.bytes[i] != other.bytes[i] {
                return false;
            }
            i = i + 1;
        }
        assert(self.bytes@ =~= other.bytes@);
        true
    }
}

impl PartialEqSpecImpl for Address {
    open spec fn obeys_eq_spec() -> bool {
        true
    }

    open spec fn eq_spec(&self, other: &Self) -> bool {
        self@ == other@
    }
}

impl Address {
    /// The address made of the given bytes.
    pub fn new(bytes: [u8; 32]) -> (r: Address)
        ensures
            r@ == bytes@,
            r.bytes == bytes,
    {
        Address { bytes }
    }

    /// The address of 32 zero bytes, which no account has.
    pub fn zero() -> (r: Address)
        ensures
            r@ == Seq::new(32, |i: int| 0u8),
    {
        let r = Address { bytes: [0u8; 32] };
        assert(r@ =~= Seq::new(32, |i: int| 0u8));
        r
    }

    /// The bytes of the address.
    pub fn to_bytes(&self) -> (r: [u8; 32])
        ensures
            r@ == self@,
    {
        self.bytes
    }
}

impl Default for Address {
    fn default() -> (r: Address)
        ensures
            r@ == Seq::new(32, |i: int| 0u8),
    {
        Address::zero()
    }
}

/// The text that stands for 32 bytes in base 58, in the alphabet that
/// Bitcoin uses.
pub uninterp spec fn base58(bytes: Seq<u8>) -> Seq<char>;

/// The bytes that a text in base 58 stands for, where it stands for 32
/// bytes.
pub uninterp spec fn base58_decoded(text: Seq<char>) -> Option<Seq<u8>>;

/// Writes an address in base 58, with the `to_string` of
/// `anchor_lang::prelude::Pubkey`. The text depends on the bytes alone.
#[verifier::external_body]
pub(crate) fn address_to_base58(address: &Address) -> (r: String)
    ensures
        r@ == base58(address@),
{
    anchor_lang::prelude::Pubkey::new_from_array(address.bytes).to_string()
}

/// Reads an address in base 58, with the `from_str` of
/// `anchor_lang::prelude::Pubkey`, which gives an error for a text of more
/// than 44 bytes, for a text that is not base 58, and for one that does not
/// stand for 32 bytes. The result depends on the text alone.
#[verifier::external_body]
pub(crate) fn address_from_base58(text: &str) -> (r: Option<Address>)
    ensures
        match r {
            Some(address) => base58_decoded(text@) == Some(address@),
            None => base58_decoded(text@) is None,
        },
{
    match <anchor_lang::prelude::Pubkey as std::str::FromStr>::from_str(text) {
        Ok(key) => Some(Address { bytes: key.to_bytes() }),
        Err(_) => None,
    }
}

impl Address {
    /// The address in base 58.
    pub fn to_base58(&self) -> (r: String)
        ensures
            r@ == base58(self@),
    {
        address_to_base58(self)
    }

    /// The address that a text in base 58 stands for.
    pub fn from_base58(text: &str) -> (r: Option<Address>)
        ensures
            match r {
                Some(address) => base58_decoded(text@) == Some(address@),
                None => base58_decoded(text@) is None,
            },
    {
        address_from_base58(text)
    }
}

} // verus!
