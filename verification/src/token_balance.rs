//! What a confirmed transaction did to the token balances of a wallet.
use crate::address::{address_to_base58, base58, Address};
use crate::decimal::{decimal_u64, parse_decimal};
use vstd::prelude::*;
use vstd::string::*;

verus! {

/// The balance of one token account before or after a transaction, as the
/// network reports it: the mint and the owner in base 58, the amount in
/// decimal digits.
#[derive(Debug, PartialEq, Eq)]
pub struct TokenBalance {
    pub mint: String,
    pub owner: Option<String>,
    pub amount: String,
}

/// What the network records of a transaction that is on the chain: the
/// error with which a program rejected it, if one did, and the token
/// balances before and after it.
#[derive(Debug, PartialEq, Eq)]
pub struct TransactionMeta {
    pub err: Option<String>,
    pub pre_token_balances: Option<Vec<TokenBalance>>,
    pub post_token_balances: Option<Vec<TokenBalance>>,
}

/// Reads an amount in decimal digits.
pub fn parse_u64(text: &str) -> (r: Option<u64>)
    ensures
        r == decimal_u64(text@),
{
    let len: usize = text.unicode_len();
    assert(text@.subrange(0, len as int) =~= text@);
    parse_decimal(text, 0, len)
}

/// Whether a balance is that of the mint in an account of the owner.
pub open spec fn is_wanted(balance: TokenBalance, mint: Seq<char>, owner: Seq<char>) -> bool {
    balance.mint@ == mint && match balance.owner {
        Some(o) => o@ == owner,
        None => false,
    }
}

/// Whether balance `i` is the first wanted one.
pub open spec fn is_first_wanted(
    balances: Seq<TokenBalance>,
    mint: Seq<char>,
    owner: Seq<char>,
    i: int,
) -> bool {
    &&& 0 <= i < balances.len()
    &&& is_wanted(balances[i], mint, owner)
    &&& forall|j: int| 0 <= j < i ==> !is_wanted(#[trigger] balances[j], mint, owner)
}

/// The amount of the first wanted balance, as it is written.
pub open spec fn wanted_amount(balances: Seq<TokenBalance>, mint: Seq<char>, owner: Seq<char>) -> Option<
    Seq<char>,
> {
    if exists|i: int| is_first_wanted(balances, mint, owner, i) {
        Some(balances[choose|i: int| is_first_wanted(balances, mint, owner, i)].amount@)
    } else {
        None
    }
}

/// By how much a transaction moved the balance of `mint` that `owner`
/// holds: upward where `is_positive`, else downward. Nothing where the
/// record has no balances, where one of the two balances is missing or is no
/// number, or where the balance moved the other way.
pub open spec fn token_change(
    meta: TransactionMeta,
    owner: Seq<char>,
    mint: Seq<char>,
    is_positive: bool,
) -> Option<u64> {
    match (meta.pre_token_balances, meta.post_token_balances) {
        (Some(pre), Some(post)) => match (
            wanted_amount(pre@, mint, owner),
            wanted_amount(post@, mint, owner),
        ) {
            (Some(before), Some(after)) => match (decimal_u64(before), decimal_u64(after)) {
                (Some(b), Some(a)) => if is_positive {
                    if a >= b {
                        Some((a - b) as u64)
                    } else {
                        None
                    }
                } else {
                    if b >= a {
                        Some((b - a) as u64)
                    } else {
                        None
                    }
                },
                _ => None,
            },
            _ => None,
        },
        _ => None,
    }
}

/// The first balance of the mint in an account of the owner.
pub fn find_token_balance<'a>(balances: &'a Vec<TokenBalance>, mint: &String, owner: &String) -> (r:
    Option<&'a TokenBalance>)
    ensures
        match r {
            Some(b) => wanted_amount(balances@, mint@, owner@) == Some(b.amount@),
            None => wanted_amount(balances@, mint@, owner@) is None,
        },
{
    let mut i: usize = 0;
    while i < balances.len()
        invariant
            i <= balances.len(),
            forall|j: int| 0 <= j < i ==> !is_wanted(#[trigger] balances@[j], mint@, owner@),
        decreases balances.len() - i,
    {
        let b = &balances[i];
        let wanted = b.mint == *mint && match &b.owner {
            Some(o) => *o == *owner,
            None => false,
        };
        if wanted {
            proof {
                assert(is_first_wanted(balances@, mint@, owner@, i as int));
                let k = choose|k: int| is_first_wanted(balances@, mint@, owner@, k);
                if k < i {
                    assert(!is_wanted(balances@[k], mint@, owner@));
                }
                if i < k {
                    assert(!is_wanted(balances@[i as int], mint@, owner@));
                }
            }
            return Some(b);
        }
        i = i + 1;
    }
    proof {
        if exists|k: int| is_first_wanted(balances@, mint@, owner@, k) {
            let k = choose|k: int| is_first_wanted(balances@, mint@, owner@, k);
            assert(!is_wanted(balances@[k], mint@, owner@));
        }
    }
    None
}

/// By how much a transaction moved the balance of `mint` that `owner`
/// holds, both given in base 58.
pub fn token_change_of(meta: &TransactionMeta, owner: &String, mint: &String, is_positive: bool) -> (r:
    Option<u64>)
    ensures
        r == token_change(*meta, owner@, mint@, is_positive),
{
    match (&meta.pre_token_balances, &meta.post_token_balances) {
        (Some(pre_token_balances), Some(post_token_balances)) => {
            match (
                find_token_balance(pre_token_balances, mint, owner),
                find_token_balance(post_token_balances, mint, owner),
            ) {
                (Some(pre_balance), Some(post_balance)) => {
                    match (
                        parse_u64(pre_balance.amount.as_str()),
                        parse_u64(post_balance.amount.as_str()),
                    ) {
                        (Some(pre_token_amount), Some(post_token_amount)) => {
                            if is_positive {
                                post_token_amount.checked_sub(pre_token_amount)
                            } else {
                                pre_token_amount.checked_sub(post_token_amount)
                            }
                        },
                        _ => None,
                    }
                },
                _ => None,
            }
        },
        _ => None,
    }
}

/// By how much a transaction moved the balance of `mint` in the wallet's
/// token account: upward where `is_positive`, else downward.
pub fn parse_transaction_token_change(
    meta: &TransactionMeta,
    wallet: &Address,
    mint: &Address,
    is_positive: bool,
) -> (r: Option<u64>)
    ensures
        r == token_change(*meta, base58(wallet@), base58(mint@), is_positive),
{
    let wallet_str = address_to_base58(wallet);
    let mint_str = address_to_base58(mint);
    token_change_of(meta, &wallet_str, &mint_str, is_positive)
}

} // verus!
