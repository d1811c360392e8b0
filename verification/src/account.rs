//! A margin account: its balances, the banks they lie in, and what they are
//! worth at the prices of the oracles.
use crate::address::Address;
use crate::bank::{token_factor, MarginfiBank, OnChainBank};
use crate::error::Error;
use crate::fixed_lemmas::{
    lemma_floor_bounds, lemma_mul_by_whole, lemma_quotient_toward_zero_bounds,
};
use crate::fixed_point::{
    add_checked, div_checked, fits, lemma_pow10_values, mul_checked, scale, FixedPoint,
};
use crate::keyed::{
    distinct_keys, find, first_index, first_value, has_key, lemma_first_index, position,
};
use crate::oracle::{range_bits, OracleFeed, PriceData};
use crate::oracle_cache::OraclesState;
use vstd::prelude::*;

verus! {

/// One position of a margin account as it is read from the chain.
#[derive(Clone, Copy, Debug)]
pub struct OnChainBalance {
    pub active: bool,
    pub bank_pk: Address,
    pub asset_shares: i128,
    pub liability_shares: i128,
}

/// A margin account as it is read from the chain.
#[derive(Debug)]
pub struct OnChainMarginfiAccount {
    pub balances: Vec<OnChainBalance>,
}

/// The position of a margin account in one bank. The weights are those that
/// the bank had when the position was read, so that one valuation works on
/// one set of weights.
#[derive(Clone, Copy, Debug)]
pub struct MarginfiAccountBalance {
    pub is_active: bool,
    pub bank_address: Address,
    pub asset_shares: FixedPoint,
    pub liability_shares: FixedPoint,
    pub asset_weight: FixedPoint,
    pub liabilities_weight: FixedPoint,
}

/// The bits of an amount, weighted where a weight is given, valued at a
/// price, and brought from the smallest units of a mint to whole tokens.
pub open spec fn scaled_amount(amount: int, weight: Option<int>, price: int, factor: int) -> Option<
    int,
> {
    let weighted = match weight {
        Some(w) => mul_checked(amount, w),
        None => Some(amount),
    };
    match weighted {
        Some(w) => match mul_checked(w, price) {
            Some(valued) => div_checked(valued, factor),
            None => None,
        },
        None => None,
    }
}

/// The bits of an asset value after the haircut of a bank's cap: where the
/// bank has a cap and all that is deposited in it is worth more than the
/// cap at the given price, the value is cut by the ratio of the cap to that
/// worth.
pub open spec fn capped_value(value: int, bank: MarginfiBank, price: int, factor: int) -> Option<
    int,
> {
    if bank.total_asset_value_init_limit == 0 {
        Some(value)
    } else {
        match mul_checked(bank.total_asset_shares@, bank.asset_share_value@) {
            Some(deposited) => match scaled_amount(deposited, None, price, factor) {
                Some(bank_total) => if bank_total > bank.total_asset_value_init_limit * scale() {
                    match div_checked(bank.total_asset_value_init_limit * scale(), bank_total) {
                        Some(discount) => mul_checked(value, discount),
                        None => None,
                    }
                } else {
                    Some(value)
                },
                None => None,
            },
            None => None,
        }
    }
}

/// The haircut of a cap never raises a value that is not negative and never
/// takes it below zero.
pub proof fn lemma_capped_value_bounds(
    value: int,
    bank: MarginfiBank,
    price: int,
    factor: int,
    capped: int,
)
    requires
        value >= 0,
        capped_value(value, bank, price, factor) == Some(capped),
    ensures
        0 <= capped <= value,
{
    let s = scale();
    if bank.total_asset_value_init_limit != 0 {
        let deposited = mul_checked(bank.total_asset_shares@, bank.asset_share_value@).unwrap();
        let bank_total = scaled_amount(deposited, None, price, factor).unwrap();
        let cap = bank.total_asset_value_init_limit * s;
        if bank_total > cap {
            let discount = div_checked(cap, bank_total).unwrap();
            assert(cap * s >= 0) by (nonlinear_arith)
                requires
                    cap >= 0,
                    s > 0,
            ;
            lemma_quotient_toward_zero_bounds(cap * s, bank_total);
            assert(discount * bank_total <= cap * s);
            assert(discount <= s) by (nonlinear_arith)
                requires
                    discount * bank_total <= cap * s,
                    bank_total > cap,
                    cap >= 0,
                    s > 0,
                    discount >= 0,
            ;
            assert(0 <= value * discount <= value * s) by (nonlinear_arith)
                requires
                    value >= 0,
                    0 <= discount <= s,
            ;
            lemma_floor_bounds(value * discount, s);
            assert(capped == (value * discount) / s);
            assert(capped >= 0) by (nonlinear_arith)
                requires
                    capped * s + s > value * discount,
                    value * discount >= 0,
                    s > 0,
            ;
            assert(capped <= value) by (nonlinear_arith)
                requires
                    capped * s <= value * discount,
                    value * discount <= value * s,
                    s > 0,
            ;
        }
    }
}

/// Calculates `amount * weight * price / scaling_factor`, without the weight
/// where none is given.
pub fn calc_scaled_amount(
    amount: FixedPoint,
    weight: Option<FixedPoint>,
    price: FixedPoint,
    scaling_factor: FixedPoint,
) -> (r: Result<FixedPoint, Error>)
    ensures
        match r {
            Ok(v) => scaled_amount(
                amount@,
                match weight {
                    Some(w) => Some(w@),
                    None => None,
                },
                price@,
                scaling_factor@,
            ) == Some(v@),
            Err(e) => scaled_amount(
                amount@,
                match weight {
                    Some(w) => Some(w@),
                    None => None,
                },
                price@,
                scaling_factor@,
            ) is None && e == Error::MathOverflow,
        },
{
    let weighted = match weight {
        Some(w) => amount.try_mul(w)?,
        None => amount,
    };
    weighted.try_mul(price)?.try_div(scaling_factor)
}

impl MarginfiAccountBalance {
    /// The position that an on-chain record describes, with the weights of
    /// its bank.
    pub open spec fn of(balance: OnChainBalance, bank: MarginfiBank) -> MarginfiAccountBalance {
        MarginfiAccountBalance {
            is_active: balance.active,
            bank_address: balance.bank_pk,
            asset_shares: FixedPoint { bits: balance.asset_shares },
            liability_shares: FixedPoint { bits: balance.liability_shares },
            asset_weight: bank.asset_weight_init,
            liabilities_weight: bank.liability_weight_init,
        }
    }

    /// The bits of the asset amount and of the liability amount of the
    /// position, at the given values of a share.
    pub open spec fn amounts(&self, asset_share_value: int, liab_share_value: int) -> Option<
        (int, int),
    > {
        match (
            mul_checked(self.asset_shares@, asset_share_value),
            mul_checked(self.liability_shares@, liab_share_value),
        ) {
            (Some(assets), Some(liabilities)) => Some((assets, liabilities)),
            _ => None,
        }
    }

    /// The bits of the weighted asset value and of the weighted liability
    /// value of an active position, in millionths of the oracle's unit:
    /// assets at the low price and less the haircut of the bank's cap,
    /// liabilities at the high price.
    pub open spec fn weighted_value(&self, bank: MarginfiBank, low: int, high: int) -> Option<
        (int, int),
    > {
        match (
            token_factor(bank.mint_decimals),
            self.amounts(bank.asset_share_value@, bank.liability_share_value@),
        ) {
            (Some(factor), Some(amounts)) => match (
                scaled_amount(amounts.0, Some(self.asset_weight@), low, factor),
                scaled_amount(amounts.1, Some(self.liabilities_weight@), high, factor),
            ) {
                (Some(assets), Some(liabilities)) => match capped_value(
                    assets,
                    bank,
                    low,
                    factor,
                ) {
                    Some(capped) => if fits(capped * 1_000_000)
                        && fits(liabilities * 1_000_000) {
                        Some((capped * 1_000_000, liabilities * 1_000_000))
                    } else {
                        None
                    },
                    None => None,
                },
                _ => None,
            },
            _ => None,
        }
    }

    /// Reads a position from its on-chain record and takes the weights of
    /// its bank.
    pub fn new(balance: &OnChainBalance, bank: &MarginfiBank) -> (r: MarginfiAccountBalance)
        ensures
            r == MarginfiAccountBalance::of(*balance, *bank),
    {
        MarginfiAccountBalance {
            is_active: balance.active,
            asset_shares: FixedPoint::from_bits(balance.asset_shares),
            liability_shares: FixedPoint::from_bits(balance.liability_shares),
            bank_address: balance.bank_pk,
            asset_weight: bank.asset_weight_init,
            liabilities_weight: bank.liability_weight_init,
        }
    }

    /// An inactive position without shares in the bank at `bank_address`,
    /// with the weights of that bank.
    pub fn new_empty(bank_address: &Address, bank: &MarginfiBank) -> (r: MarginfiAccountBalance)
        ensures
            !r.is_active,
            r.bank_address == *bank_address,
            r.asset_shares@ == 0,
            r.liability_shares@ == 0,
            r.asset_weight == bank.asset_weight_init,
            r.liabilities_weight == bank.liability_weight_init,
    {
        MarginfiAccountBalance {
            bank_address: *bank_address,
            asset_shares: FixedPoint::zero(),
            liability_shares: FixedPoint::zero(),
            is_active: false,
            asset_weight: bank.asset_weight_init,
            liabilities_weight: bank.liability_weight_init,
        }
    }

    /// The asset amount and the liability amount of the position: its
    /// shares times the value of a share.
    pub fn get_amounts(&self, asset_share_value: FixedPoint, liab_share_value: FixedPoint) -> (r:
        Result<(FixedPoint, FixedPoint), Error>)
        ensures
            match r {
                Ok(v) => self.amounts(asset_share_value@, liab_share_value@) == Some((v.0@, v.1@)),
                Err(e) => self.amounts(asset_share_value@, liab_share_value@) is None && e
                    == Error::MathOverflow,
            },
    {
        let assets = self.asset_shares.try_mul(asset_share_value)?;
        let liabilities = self.liability_shares.try_mul(liab_share_value)?;
        Ok((assets, liabilities))
    }

    /// The weighted asset value and the weighted liability value of the
    /// position. An inactive position is worth nothing, whatever the bank
    /// and the oracle say. An active one is valued at the worse end of the
    /// oracle's price range on either side.
    pub fn get_weighted_amounts<P: PriceData>(&self, bank: &MarginfiBank, oracle: &P) -> (r: Result<
        (FixedPoint, FixedPoint),
        Error,
    >)
        ensures
            !self.is_active ==> r == Ok::<(FixedPoint, FixedPoint), Error>(
                (FixedPoint { bits: 0 }, FixedPoint { bits: 0 }),
            ),
            self.is_active ==> match range_bits(oracle.price_bits(), oracle.confidence_bits()) {
                None => r == Err::<(FixedPoint, FixedPoint), Error>(oracle.parse_error()),
                Some(range) => match r {
                    Ok(v) => self.weighted_value(*bank, range.0, range.1) == Some((v.0@, v.1@)),
                    Err(e) => self.weighted_value(*bank, range.0, range.1) is None && e
                        == Error::MathOverflow,
                },
            },
    {
        if !self.is_active {
            return Ok((FixedPoint::zero(), FixedPoint::zero()));
        }
        let asset_share_value = bank.asset_share_value;
        let liability_share_value = bank.liability_share_value;

        let (worst_price, best_price) = oracle.get_price_range()?;
        let (asset_amount, liab_amount) = self.get_amounts(
            asset_share_value,
            liability_share_value,
        )?;

        let scaling_factor = bank.scaling_factor()?;
        let mut total_assets = calc_scaled_amount(
            asset_amount,
            Some(self.asset_weight),
            worst_price,
            scaling_factor,
        )?;
        let total_liabilities = calc_scaled_amount(
            liab_amount,
            Some(self.liabilities_weight),
            best_price,
            scaling_factor,
        )?;

        if bank.total_asset_value_init_limit != 0 {
            let deposited = bank.total_asset_shares.try_mul(asset_share_value)?;
            let bank_total_assets = calc_scaled_amount(
                deposited,
                None,
                worst_price,
                scaling_factor,
            )?;
            let total_asset_value_init_limit = FixedPoint::from_u64(
                bank.total_asset_value_init_limit,
            );
            if total_asset_value_init_limit.lt(&bank_total_assets) {
                let discount = total_asset_value_init_limit.try_div(bank_total_assets)?;
                total_assets = total_assets.try_mul(discount)?;
            }
        }
        let million = FixedPoint::exp10_fixed(6);
        proof {
            lemma_pow10_values();
            lemma_mul_by_whole(total_assets@, 1_000_000);
            lemma_mul_by_whole(total_liabilities@, 1_000_000);
        }
        let assets = total_assets.try_mul(million)?;
        let liabilities = total_liabilities.try_mul(million)?;
        Ok((assets, liabilities))
    }
}

impl Default for MarginfiAccountBalance {
    fn default() -> (r: MarginfiAccountBalance)
        ensures
            !r.is_active,
            r.asset_shares@ == 0,
            r.liability_shares@ == 0,
            r.asset_weight@ == 0,
            r.liabilities_weight@ == 0,
    {
        MarginfiAccountBalance {
            is_active: false,
            bank_address: Address::zero(),
            asset_shares: FixedPoint::zero(),
            liability_shares: FixedPoint::zero(),
            asset_weight: FixedPoint::zero(),
            liabilities_weight: FixedPoint::zero(),
        }
    }
}

/// Whether bank `i` is the first bank of the mint.
pub open spec fn is_first_of_mint(
    banks: Seq<(Address, MarginfiBank)>,
    mint: Seq<u8>,
    i: int,
) -> bool {
    &&& 0 <= i < banks.len()
    &&& banks[i].1.mint@ == mint
    &&& forall|j: int| 0 <= j < i ==> (#[trigger] banks[j]).1.mint@ != mint
}

/// Whether some bank is of the mint.
pub open spec fn has_mint(banks: Seq<(Address, MarginfiBank)>, mint: Seq<u8>) -> bool {
    exists|i: int| 0 <= i < banks.len() && (#[trigger] banks[i]).1.mint@ == mint
}

/// The first bank of the mint, with its address.
pub open spec fn bank_of_mint(banks: Seq<(Address, MarginfiBank)>, mint: Seq<u8>) -> Option<
    (Address, MarginfiBank),
> {
    if has_mint(banks, mint) {
        Some(banks[choose|i: int| is_first_of_mint(banks, mint, i)])
    } else {
        None
    }
}

/// A mint has one first bank only.
pub proof fn lemma_first_of_mint(banks: Seq<(Address, MarginfiBank)>, mint: Seq<u8>, i: int)
    requires
        is_first_of_mint(banks, mint, i),
    ensures
        has_mint(banks, mint),
        bank_of_mint(banks, mint) == Some(banks[i]),
{
    let j = choose|j: int| is_first_of_mint(banks, mint, j);
    if j < i {
        assert(banks[j].1.mint@ != mint);
    }
    if i < j {
        assert(banks[i].1.mint@ != mint);
    }
}

/// Where no address stands twice among the banks, the first bank of a mint
/// is the bank that is found at its own address.
pub proof fn lemma_bank_of_mint_resolves(banks: Seq<(Address, MarginfiBank)>, mint: Seq<u8>)
    requires
        distinct_keys(banks),
        bank_of_mint(banks, mint) is Some,
    ensures
        first_value(banks, bank_of_mint(banks, mint).unwrap().0@) == Some(
            bank_of_mint(banks, mint).unwrap().1,
        ),
        bank_of_mint(banks, mint).unwrap().1.mint@ == mint,
{
    let witness = choose|i: int| 0 <= i < banks.len() && (#[trigger] banks[i]).1.mint@ == mint;
    lemma_has_first_of_mint(banks, mint, witness);
    let i = choose|i: int| is_first_of_mint(banks, mint, i);
    assert forall|j: int| 0 <= j < i implies (#[trigger] banks[j]).0@ != banks[i].0@ by {}
    lemma_first_index(banks, banks[i].0@, i);
}

/// A mint that some bank is of has a first bank.
proof fn lemma_has_first_of_mint(banks: Seq<(Address, MarginfiBank)>, mint: Seq<u8>, k: int)
    requires
        0 <= k < banks.len(),
        banks[k].1.mint@ == mint,
    ensures
        exists|i: int| is_first_of_mint(banks, mint, i),
    decreases k,
{
    if forall|j: int| 0 <= j < k ==> (#[trigger] banks[j]).1.mint@ != mint {
        assert(is_first_of_mint(banks, mint, k));
    } else {
        let j = choose|j: int| 0 <= j < k && (#[trigger] banks[j]).1.mint@ == mint;
        lemma_has_first_of_mint(banks, mint, j);
    }
}

/// The banks that a list of on-chain records describes, each under its
/// address.
pub open spec fn banks_of(on_chain: Seq<(Address, OnChainBank)>) -> Seq<(Address, MarginfiBank)> {
    Seq::new(on_chain.len(), |i: int| (on_chain[i].0, MarginfiBank::of(on_chain[i].1)))
}

/// The positions that the first `n` on-chain records describe, each under
/// the mint of its bank: the active ones, in their order. Nothing where an
/// active record names a bank that is not among `banks`.
pub open spec fn balances_of(
    on_chain: Seq<OnChainBalance>,
    banks: Seq<(Address, MarginfiBank)>,
    n: nat,
) -> Option<Seq<(Address, MarginfiAccountBalance)>>
    decreases n,
{
    if n == 0 {
        Some(Seq::empty())
    } else {
        let record = on_chain[n - 1];
        match balances_of(on_chain, banks, (n - 1) as nat) {
            None => None,
            Some(before) => if !record.active {
                Some(before)
            } else {
                match first_value(banks, record.bank_pk@) {
                    Some(bank) => Some(
                        before.push((bank.mint, MarginfiAccountBalance::of(record, bank))),
                    ),
                    None => None,
                }
            },
        }
    }
}

/// Whether a position lies in a bank of the list, under the mint of that
/// bank.
pub open spec fn resolves(
    banks: Seq<(Address, MarginfiBank)>,
    entry: (Address, MarginfiAccountBalance),
) -> bool {
    match first_value(banks, entry.1.bank_address@) {
        Some(bank) => bank.mint@ == entry.0@,
        None => false,
    }
}

/// The positions that on-chain records describe all lie in banks of the
/// list.
pub proof fn lemma_balances_of_resolve(
    on_chain: Seq<OnChainBalance>,
    banks: Seq<(Address, MarginfiBank)>,
    n: nat,
)
    requires
        balances_of(on_chain, banks, n) is Some,
    ensures
        forall|i: int|
            0 <= i < balances_of(on_chain, banks, n).unwrap().len() ==> resolves(
                banks,
                #[trigger] balances_of(on_chain, banks, n).unwrap()[i],
            ),
    decreases n,
{
    if n > 0 {
        lemma_balances_of_resolve(on_chain, banks, (n - 1) as nat);
    }
}

/// A margin account together with the banks it was read against.
#[derive(Debug)]
pub struct MarginfiAccountWithBanks {
    /// The positions of the account, each under the mint of its bank.
    pub balances: Vec<(Address, MarginfiAccountBalance)>,
    /// The banks, each under its address.
    pub banks: Vec<(Address, MarginfiBank)>,
}

impl MarginfiAccountWithBanks {
    /// Whether every position lies in a bank of this account's own list.
    pub open spec fn wf(&self) -> bool {
        forall|i: int|
            0 <= i < self.balances@.len() ==> resolves(self.banks@, #[trigger] self.balances@[i])
    }

    /// An account without positions and without banks.
    pub fn empty() -> (r: MarginfiAccountWithBanks)
        ensures
            r.balances@.len() == 0,
            r.banks@.len() == 0,
            r.wf(),
    {
        MarginfiAccountWithBanks { balances: Vec::new(), banks: Vec::new() }
    }

    /// Reads an account and its banks from their on-chain records. An
    /// active position in a bank that is not among the records is an error:
    /// no account is made of it.
    pub fn new(
        on_chain_account: &OnChainMarginfiAccount,
        on_chain_banks: &Vec<(Address, OnChainBank)>,
    ) -> (r: Result<MarginfiAccountWithBanks, Error>)
        ensures
            match r {
                Ok(account) => {
                    &&& account.banks@ == banks_of(on_chain_banks@)
                    &&& balances_of(
                        on_chain_account.balances@,
                        account.banks@,
                        on_chain_account.balances@.len(),
                    ) == Some(account.balances@)
                    &&& account.wf()
                },
                Err(e) => {
                    &&& balances_of(
                        on_chain_account.balances@,
                        banks_of(on_chain_banks@),
                        on_chain_account.balances@.len(),
                    ) is None
                    &&& e == Error::InvalidMarginfiBank
                },
            },
    {
        let mut acc = MarginfiAccountWithBanks::empty();
        acc.update_banks(on_chain_banks);
        match acc.update_balances(on_chain_account) {
            Ok(()) => Ok(acc),
            Err(e) => Err(e),
        }
    }

    /// Replaces the banks by those of the given on-chain records, in their
    /// order. The positions stay as they are.
    pub fn update_banks(&mut self, on_chain_banks: &Vec<(Address, OnChainBank)>)
        ensures
            final(self).banks@ == banks_of(on_chain_banks@),
            final(self).balances@ == old(self).balances@,
    {
        let mut banks: Vec<(Address, MarginfiBank)> = Vec::new();
        let mut i: usize = 0;
        while i < on_chain_banks.len()
            invariant
                i <= on_chain_banks.len(),
                banks@.len() == i,
                forall|j: int|
                    0 <= j < i ==> banks@[j] == (
                        on_chain_banks@[j].0,
                        MarginfiBank::of(on_chain_banks@[j].1),
                    ),
            decreases on_chain_banks.len() - i,
        {
            let bank_address: Address = on_chain_banks[i].0;
            let b = MarginfiBank::from_on_chain(on_chain_banks[i].1);
            banks.push((bank_address, b));
            i = i + 1;
        }
        assert(banks@ =~= banks_of(on_chain_banks@));
        self.banks = banks;
    }

    /// Replaces the positions by those of the given on-chain account: the
    /// active ones, in their order, each under the mint of its bank. Where
    /// an active position names a bank that this account does not know, the
    /// error is `InvalidMarginfiBank` and the account keeps the positions it
    /// had.
    pub fn update_balances(&mut self, on_chain_account: &OnChainMarginfiAccount) -> (r: Result<
        (),
        Error,
    >)
        ensures
            final(self).banks@ == old(self).banks@,
            match r {
                Ok(()) => {
                    &&& balances_of(
                        on_chain_account.balances@,
                        old(self).banks@,
                        on_chain_account.balances@.len(),
                    ) == Some(final(self).balances@)
                    &&& final(self).wf()
                },
                Err(e) => {
                    &&& balances_of(
                        on_chain_account.balances@,
                        old(self).banks@,
                        on_chain_account.balances@.len(),
                    ) is None
                    &&& e == Error::InvalidMarginfiBank
                    &&& final(self).balances@ == old(self).balances@
                },
            },
    {
        let mut balances: Vec<(Address, MarginfiAccountBalance)> = Vec::new();
        let mut i: usize = 0;
        while i < on_chain_account.balances.len()
            invariant
                i <= on_chain_account.balances.len(),
                balances_of(on_chain_account.balances@, self.banks@, i as nat) == Some(balances@),
            decreases on_chain_account.balances.len() - i,
        {
            let record = &on_chain_account.balances[i];
            if record.active {
                match self.get_bank_by_address(&record.bank_pk) {
                    Some(bank) => {
                        balances.push((bank.mint, MarginfiAccountBalance::new(record, bank)));
                    },
                    None => {
                        proof {
                            lemma_balances_of_fails_on(
                                on_chain_account.balances@,
                                self.banks@,
                                (i + 1) as nat,
                                on_chain_account.balances@.len(),
                            );
                        }
                        return Err(Error::InvalidMarginfiBank);
                    },
                }
            }
            i = i + 1;
        }
        proof {
            lemma_balances_of_resolve(
                on_chain_account.balances@,
                self.banks@,
                on_chain_account.balances@.len(),
            );
            let all = balances_of(
                on_chain_account.balances@,
                self.banks@,
                on_chain_account.balances@.len(),
            ).unwrap();
            assert forall|k: int| 0 <= k < balances@.len() implies resolves(
                self.banks@,
                #[trigger] balances@[k],
            ) by {
                assert(resolves(self.banks@, all[k]));
            }
        }
        self.balances = balances;
        Ok(())
    }

    /// The first bank of the mint, with its address.
    pub fn get_bank_by_mint(&self, mint: &Address) -> (r: Option<&(Address, MarginfiBank)>)
        ensures
            match r {
                Some(entry) => bank_of_mint(self.banks@, mint@) == Some(*entry),
                None => bank_of_mint(self.banks@, mint@) is None,
            },
    {
        let mut i: usize = 0;
        while i < self.banks.len()
            invariant
                i <= self.banks.len(),
                forall|j: int| 0 <= j < i ==> (#[trigger] self.banks@[j]).1.mint@ != mint@,
            decreases self.banks.len() - i,
        {
            if self.banks[i].1.mint == *mint {
                proof {
                    lemma_first_of_mint(self.banks@, mint@, i as int);
                }
                return Some(&self.banks[i]);
            }
            i = i + 1;
        }
        None
    }

    /// The bank at the address.
    pub fn get_bank_by_address(&self, address: &Address) -> (r: Option<&MarginfiBank>)
        ensures
            match r {
                Some(bank) => first_value(self.banks@, address@) == Some(*bank),
                None => first_value(self.banks@, address@) is None,
            },
    {
        find(&self.banks, address)
    }

    /// The position in the mint.
    pub fn get_balance_by_mint(&self, mint: &Address) -> (r: Option<&MarginfiAccountBalance>)
        ensures
            match r {
                Some(balance) => first_value(self.balances@, mint@) == Some(*balance),
                None => first_value(self.balances@, mint@) is None,
            },
    {
        find(&self.balances, mint)
    }
}

impl Default for MarginfiAccountWithBanks {
    fn default() -> (r: MarginfiAccountWithBanks)
        ensures
            r.balances@.len() == 0,
            r.banks@.len() == 0,
            r.wf(),
    {
        MarginfiAccountWithBanks::empty()
    }
}

/// Once an active record names an unknown bank, no longer list of records
/// gives positions.
pub proof fn lemma_balances_of_fails_on(
    on_chain: Seq<OnChainBalance>,
    banks: Seq<(Address, MarginfiBank)>,
    n: nat,
    m: nat,
)
    requires
        n <= m,
        balances_of(on_chain, banks, n) is None,
    ensures
        balances_of(on_chain, banks, m) is None,
    decreases m,
{
    if n < m {
        lemma_balances_of_fails_on(on_chain, banks, n, (m - 1) as nat);
    }
}

/// A position after `shares` were added to it, on the asset side or, for a
/// loan, on the liability side. Nothing where the sum does not fit.
pub open spec fn with_added_shares(
    balance: MarginfiAccountBalance,
    shares: int,
    borrowed: bool,
) -> Option<MarginfiAccountBalance> {
    if borrowed {
        match add_checked(balance.liability_shares@, shares) {
            Some(sum) => Some(
                MarginfiAccountBalance {
                    liability_shares: FixedPoint { bits: sum as i128 },
                    ..balance
                },
            ),
            None => None,
        }
    } else {
        match add_checked(balance.asset_shares@, shares) {
            Some(sum) => Some(
                MarginfiAccountBalance {
                    asset_shares: FixedPoint { bits: sum as i128 },
                    ..balance
                },
            ),
            None => None,
        }
    }
}

/// The active position that a first deposit or a first loan of `shares`
/// opens in a bank.
pub open spec fn opened_position(
    bank_address: Address,
    bank: MarginfiBank,
    shares: int,
    borrowed: bool,
) -> MarginfiAccountBalance {
    MarginfiAccountBalance {
        is_active: true,
        bank_address,
        asset_shares: FixedPoint { bits: if borrowed { 0 } else { shares as i128 } },
        liability_shares: FixedPoint { bits: if borrowed { shares as i128 } else { 0 } },
        asset_weight: bank.asset_weight_init,
        liabilities_weight: bank.liability_weight_init,
    }
}

/// The positions after an amount of a mint was deposited or borrowed: the
/// amount is turned into shares at the bank's value of a share, and the
/// shares are added to the position in the mint, or open a position at the
/// end of the list. The error is `InvalidMarginfiBank` where no bank is of
/// the mint, and `MathOverflow` where the shares or their sum cannot be
/// calculated.
pub open spec fn positions_after(
    balances: Seq<(Address, MarginfiAccountBalance)>,
    banks: Seq<(Address, MarginfiBank)>,
    amount: int,
    mint: Address,
    borrowed: bool,
) -> Result<Seq<(Address, MarginfiAccountBalance)>, Error> {
    match bank_of_mint(banks, mint@) {
        None => Err(Error::InvalidMarginfiBank),
        Some(entry) => {
            let share_value = if borrowed {
                entry.1.liability_share_value@
            } else {
                entry.1.asset_share_value@
            };
            match div_checked(amount, share_value) {
                None => Err(Error::MathOverflow),
                Some(shares) => if has_key(balances, mint@) {
                    let i = first_index(balances, mint@);
                    match with_added_shares(balances[i].1, shares, borrowed) {
                        Some(balance) => Ok(balances.update(i, (balances[i].0, balance))),
                        None => Err(Error::MathOverflow),
                    }
                } else {
                    Ok(balances.push((mint, opened_position(entry.0, entry.1, shares, borrowed))))
                },
            }
        },
    }
}

/// Whether rate `i` is the lowest of the rates, and the first of those that
/// are as low.
pub open spec fn is_first_lowest(rates: Seq<int>, i: int) -> bool {
    &&& 0 <= i < rates.len()
    &&& forall|j: int| 0 <= j < rates.len() ==> rates[i] <= #[trigger] rates[j]
    &&& forall|j: int| 0 <= j < i ==> rates[i] < #[trigger] rates[j]
}

/// The lowest rate has one first place only.
pub proof fn lemma_first_lowest_unique(rates: Seq<int>, i: int, j: int)
    requires
        is_first_lowest(rates, i),
        is_first_lowest(rates, j),
    ensures
        i == j,
{
    if i < j {
        assert(rates[j] < rates[i]);
    }
    if j < i {
        assert(rates[i] < rates[j]);
    }
}

/// The bits of the numbers of a list.
pub open spec fn bits_of(numbers: Seq<FixedPoint>) -> Seq<int> {
    Seq::new(numbers.len(), |i: int| numbers[i]@)
}

/// The place of the lowest rate; among equal rates the first. Nothing for
/// an empty list.
pub fn lowest_rate_index(rates: &Vec<FixedPoint>) -> (r: Option<usize>)
    ensures
        match r {
            Some(i) => is_first_lowest(bits_of(rates@), i as int),
            None => rates@.len() == 0,
        },
{
    if rates.len() == 0 {
        return None;
    }
    let mut best: usize = 0;
    let mut i: usize = 1;
    while i < rates.len()
        invariant
            1 <= i <= rates.len(),
            0 <= best < i,
            forall|j: int| 0 <= j < i ==> rates@[best as int]@ <= (#[trigger] rates@[j])@,
            forall|j: int| 0 <= j < best ==> rates@[best as int]@ < (#[trigger] rates@[j])@,
        decreases rates.len() - i,
    {
        if rates[i].lt(&rates[best]) {
            best = i;
        }
        i = i + 1;
    }
    assert(is_first_lowest(bits_of(rates@), best as int));
    Some(best)
}

/// The borrow rates of the banks of the first `n` candidate mints. The
/// error is that of the first candidate that gives no rate:
/// `InvalidMarginfiBank` where no bank is of the mint, `MathOverflow` where
/// the bank's rate cannot be calculated.
pub open spec fn candidate_rates(
    banks: Seq<(Address, MarginfiBank)>,
    candidates: Seq<Address>,
    n: nat,
) -> Result<Seq<int>, Error>
    decreases n,
{
    if n == 0 {
        Ok(Seq::empty())
    } else {
        match candidate_rates(banks, candidates, (n - 1) as nat) {
            Err(e) => Err(e),
            Ok(rates) => match bank_of_mint(banks, candidates[n - 1]@) {
                None => Err(Error::InvalidMarginfiBank),
                Some(entry) => match entry.1.borrow_rate() {
                    Some(rate) => Ok(rates.push(rate)),
                    None => Err(Error::MathOverflow),
                },
            },
        }
    }
}

/// Once a candidate gives no rate, no longer list of candidates gives
/// rates, and the error stays that of the first failure.
pub proof fn lemma_candidate_rates_fail_on(
    banks: Seq<(Address, MarginfiBank)>,
    candidates: Seq<Address>,
    n: nat,
    m: nat,
)
    requires
        n <= m,
        candidate_rates(banks, candidates, n) is Err,
    ensures
        candidate_rates(banks, candidates, m) == candidate_rates(banks, candidates, n),
    decreases m,
{
    if n < m {
        lemma_candidate_rates_fail_on(banks, candidates, n, (m - 1) as nat);
    }
}

/// The value of one position at the oracles' prices: nothing for an
/// inactive position; else the weighted value at the price range of the
/// oracle of the position's bank. The error is `InvalidMarginfiBank` where
/// no bank is of the position's mint, `UnableToFetchAccount` where the store
/// has no feed of the bank's oracle, the feed's own error where the feed
/// gives no range, and `MathOverflow` where the value cannot be calculated.
pub open spec fn position_value(
    banks: Seq<(Address, MarginfiBank)>,
    oracles: OraclesState,
    entry: (Address, MarginfiAccountBalance),
) -> Result<(int, int), Error> {
    if !entry.1.is_active {
        Ok((0, 0))
    } else {
        match bank_of_mint(banks, entry.0@) {
            None => Err(Error::InvalidMarginfiBank),
            Some(bank) => match oracles.oracle(bank.1.oracle_setup, bank.1.oracle_address@) {
                None => Err(Error::UnableToFetchAccount),
                Some(feed) => match range_bits(feed.price_bits(), feed.confidence_bits()) {
                    None => Err(feed.parse_error()),
                    Some(range) => match entry.1.weighted_value(bank.1, range.0, range.1) {
                        None => Err(Error::MathOverflow),
                        Some(value) => Ok(value),
                    },
                },
            },
        }
    }
}

/// The sums of the weighted asset values and of the weighted liability
/// values of the first `n` positions. The error is that of the first
/// position that has no value or whose value takes a sum out of range.
pub open spec fn total_value(
    balances: Seq<(Address, MarginfiAccountBalance)>,
    banks: Seq<(Address, MarginfiBank)>,
    oracles: OraclesState,
    n: nat,
) -> Result<(int, int), Error>
    decreases n,
{
    if n == 0 {
        Ok((0, 0))
    } else {
        match total_value(balances, banks, oracles, (n - 1) as nat) {
            Err(e) => Err(e),
            Ok(sums) => match position_value(banks, oracles, balances[n - 1]) {
                Err(e) => Err(e),
                Ok(value) => match (add_checked(sums.0, value.0), add_checked(sums.1, value.1)) {
                    (Some(assets), Some(liabilities)) => Ok((assets, liabilities)),
                    _ => Err(Error::MathOverflow),
                },
            },
        }
    }
}

/// Once a position has no value, no longer list of positions has a total,
/// and the error stays that of the first failure.
pub proof fn lemma_total_value_fails_on(
    balances: Seq<(Address, MarginfiAccountBalance)>,
    banks: Seq<(Address, MarginfiBank)>,
    oracles: OraclesState,
    n: nat,
    m: nat,
)
    requires
        n <= m,
        total_value(balances, banks, oracles, n) is Err,
    ensures
        total_value(balances, banks, oracles, m) == total_value(balances, banks, oracles, n),
    decreases m,
{
    if n < m {
        lemma_total_value_fails_on(balances, banks, oracles, n, (m - 1) as nat);
    }
}

impl MarginfiAccountWithBanks {
    /// Adds the shares that `amount` buys to the position in `mint`, on the
    /// asset side or, for a loan, on the liability side.
    fn change_position(&mut self, amount: FixedPoint, mint: &Address, borrowed: bool) -> (r: Result<
        (),
        Error,
    >)
        ensures
            final(self).banks@ == old(self).banks@,
            old(self).wf() && distinct_keys(old(self).banks@) ==> final(self).wf(),
            match r {
                Ok(()) => positions_after(
                    old(self).balances@,
                    old(self).banks@,
                    amount@,
                    *mint,
                    borrowed,
                ) == Ok::<Seq<(Address, MarginfiAccountBalance)>, Error>(final(self).balances@),
                Err(e) => positions_after(
                    old(self).balances@,
                    old(self).banks@,
                    amount@,
                    *mint,
                    borrowed,
                ) == Err::<Seq<(Address, MarginfiAccountBalance)>, Error>(e)
                    && final(self).balances@ == old(self).balances@,
            },
    {
        let (bank_address, bank) = match self.get_bank_by_mint(mint) {
            Some(entry) => (entry.0, entry.1),
            None => {
                return Err(Error::InvalidMarginfiBank);
            },
        };
        let share_value = if borrowed {
            bank.liability_share_value
        } else {
            bank.asset_share_value
        };
        let shares = amount.try_div(share_value)?;
        match position(&self.balances, mint) {
            Some(i) => {
                let saved: Address = self.balances[i].0;
                let mut balance: MarginfiAccountBalance = self.balances[i].1;
                if borrowed {
                    balance.liability_shares = balance.liability_shares.try_add(shares)?;
                } else {
                    balance.asset_shares = balance.asset_shares.try_add(shares)?;
                }
                self.balances.set(i, (saved, balance));
            },
            None => {
                let mut balance = MarginfiAccountBalance::new_empty(&bank_address, &bank);
                balance.is_active = true;
                if borrowed {
                    balance.liability_shares = shares;
                } else {
                    balance.asset_shares = shares;
                }
                self.balances.push((*mint, balance));
                proof {
                    if old(self).wf() && distinct_keys(old(self).banks@) {
                        lemma_bank_of_mint_resolves(self.banks@, mint@);
                    }
                }
            },
        }
        proof {
            if old(self).wf() && distinct_keys(old(self).banks@) {
                assert forall|k: int| 0 <= k < self.balances@.len() implies resolves(
                    self.banks@,
                    #[trigger] self.balances@[k],
                ) by {
                    if k < old(self).balances@.len() {
                        assert(resolves(old(self).banks@, old(self).balances@[k]));
                    }
                }
            }
        }
        Ok(())
    }

    /// Books a deposit of `amount` of `mint` that has not reached the chain
    /// yet: the shares that the amount buys are added to the asset shares of
    /// the position in the mint, or open an active position.
    pub fn deposit(&mut self, amount: FixedPoint, mint: &Address) -> (r: Result<(), Error>)
        ensures
            final(self).banks@ == old(self).banks@,
            old(self).wf() && distinct_keys(old(self).banks@) ==> final(self).wf(),
            match r {
                Ok(()) => positions_after(
                    old(self).balances@,
                    old(self).banks@,
                    amount@,
                    *mint,
                    false,
                ) == Ok::<Seq<(Address, MarginfiAccountBalance)>, Error>(final(self).balances@),
                Err(e) => positions_after(
                    old(self).balances@,
                    old(self).banks@,
                    amount@,
                    *mint,
                    false,
                ) == Err::<Seq<(Address, MarginfiAccountBalance)>, Error>(e)
                    && final(self).balances@ == old(self).balances@,
            },
    {
        self.change_position(amount, mint, false)
    }

    /// Books a loan of `amount` of `mint` that has not reached the chain
    /// yet: the shares that the amount makes are added to the liability
    /// shares of the position in the mint, or open an active position.
    pub fn borrow(&mut self, amount: FixedPoint, mint: &Address) -> (r: Result<(), Error>)
        ensures
            final(self).banks@ == old(self).banks@,
            old(self).wf() && distinct_keys(old(self).banks@) ==> final(self).wf(),
            match r {
                Ok(()) => positions_after(
                    old(self).balances@,
                    old(self).banks@,
                    amount@,
                    *mint,
                    true,
                ) == Ok::<Seq<(Address, MarginfiAccountBalance)>, Error>(final(self).balances@),
                Err(e) => positions_after(
                    old(self).balances@,
                    old(self).banks@,
                    amount@,
                    *mint,
                    true,
                ) == Err::<Seq<(Address, MarginfiAccountBalance)>, Error>(e)
                    && final(self).balances@ == old(self).balances@,
            },
    {
        self.change_position(amount, mint, true)
    }

    /// The value of one position at the oracles' prices.
    fn value_of_position(
        &self,
        oracles_state: &OraclesState,
        entry: &(Address, MarginfiAccountBalance),
    ) -> (r: Result<(FixedPoint, FixedPoint), Error>)
        ensures
            match r {
                Ok(v) => position_value(self.banks@, *oracles_state, *entry) == Ok::<
                    (int, int),
                    Error,
                >((v.0@, v.1@)),
                Err(e) => position_value(self.banks@, *oracles_state, *entry) == Err::<
                    (int, int),
                    Error,
                >(e),
            },
    {
        if !entry.1.is_active {
            return Ok((FixedPoint::zero(), FixedPoint::zero()));
        }
        let bank = match self.get_bank_by_mint(&entry.0) {
            Some(found) => &found.1,
            None => {
                return Err(Error::InvalidMarginfiBank);
            },
        };
        let oracle: OracleFeed = match oracles_state.get_oracle(
            bank.oracle_setup,
            &bank.oracle_address,
        ) {
            Some(feed) => feed,
            None => {
                return Err(Error::UnableToFetchAccount);
            },
        };
        entry.1.get_weighted_amounts(bank, &oracle)
    }

    /// The sum of the weighted asset values and the sum of the weighted
    /// liability values of all positions, at the prices that the store
    /// holds. Inactive positions count for nothing.
    pub fn get_total_weighted_amount(&self, oracles_state: &OraclesState) -> (r: Result<
        (FixedPoint, FixedPoint),
        Error,
    >)
        ensures
            match r {
                Ok(v) => total_value(
                    self.balances@,
                    self.banks@,
                    *oracles_state,
                    self.balances@.len(),
                ) == Ok::<(int, int), Error>((v.0@, v.1@)),
                Err(e) => total_value(
                    self.balances@,
                    self.banks@,
                    *oracles_state,
                    self.balances@.len(),
                ) == Err::<(int, int), Error>(e),
            },
    {
        let mut total_assets = FixedPoint::zero();
        let mut total_liabilities = FixedPoint::zero();
        let mut i: usize = 0;
        while i < self.balances.len()
            invariant
                i <= self.balances.len(),
                total_value(self.balances@, self.banks@, *oracles_state, i as nat) == Ok::<
                    (int, int),
                    Error,
                >((total_assets@, total_liabilities@)),
            decreases self.balances.len() - i,
        {
            proof {
                if i + 1 <= self.balances@.len() {
                    if total_value(self.balances@, self.banks@, *oracles_state, (i + 1) as nat)
                        is Err {
                        lemma_total_value_fails_on(
                            self.balances@,
                            self.banks@,
                            *oracles_state,
                            (i + 1) as nat,
                            self.balances@.len(),
                        );
                    }
                }
            }
            let (assets, liabilities) = self.value_of_position(oracles_state, &self.balances[i])?;
            let next_assets = total_assets.try_add(assets)?;
            let next_liabilities = total_liabilities.try_add(liabilities)?;
            total_assets = next_assets;
            total_liabilities = next_liabilities;
            i = i + 1;
        }
        Ok((total_assets, total_liabilities))
    }

    /// The candidate mint whose bank lends at the lowest rate, with that
    /// bank; among equal rates the first candidate. The error is
    /// `InvalidMarginfiBank` where there is no candidate or a candidate has
    /// no bank, and `MathOverflow` where a rate cannot be calculated.
    pub fn best_borrow_target(&self, candidate_mints: &Vec<Address>) -> (r: Result<
        (Address, &MarginfiBank),
        Error,
    >)
        ensures
            match r {
                Ok(target) => {
                    &&& candidate_rates(self.banks@, candidate_mints@, candidate_mints@.len())
                        is Ok
                    &&& exists|i: int|
                        {
                            &&& is_first_lowest(
                                candidate_rates(
                                    self.banks@,
                                    candidate_mints@,
                                    candidate_mints@.len(),
                                ).unwrap(),
                                i,
                            )
                            &&& 0 <= i < candidate_mints@.len()
                            &&& target.0 == candidate_mints@[i]
                            &&& bank_of_mint(self.banks@, candidate_mints@[i]@) is Some
                            &&& bank_of_mint(self.banks@, candidate_mints@[i]@).unwrap().1
                                == *target.1
                        }
                },
                Err(e) => if candidate_mints@.len() == 0 {
                    e == Error::InvalidMarginfiBank
                } else {
                    candidate_rates(self.banks@, candidate_mints@, candidate_mints@.len())
                        == Err::<Seq<int>, Error>(e)
                },
            },
    {
        let mut rates: Vec<FixedPoint> = Vec::new();
        let mut i: usize = 0;
        assert(bits_of(rates@) =~= Seq::<int>::empty());
        while i < candidate_mints.len()
            invariant
                i <= candidate_mints.len(),
                rates@.len() == i,
                candidate_rates(self.banks@, candidate_mints@, i as nat) == Ok::<Seq<int>, Error>(
                    bits_of(rates@),
                ),
                forall|j: int|
                    0 <= j < i ==> bank_of_mint(self.banks@, (#[trigger] candidate_mints@[j])@)
                        is Some,
            decreases candidate_mints.len() - i,
        {
            proof {
                if candidate_rates(self.banks@, candidate_mints@, (i + 1) as nat) is Err {
                    lemma_candidate_rates_fail_on(
                        self.banks@,
                        candidate_mints@,
                        (i + 1) as nat,
                        candidate_mints@.len(),
                    );
                }
            }
            let bank = match self.get_bank_by_mint(&candidate_mints[i]) {
                Some(entry) => &entry.1,
                None => {
                    return Err(Error::InvalidMarginfiBank);
                },
            };
            let rate = bank.get_borrow_rate()?;
            proof {
                assert(bits_of(rates@.push(rate)) =~= bits_of(rates@).push(rate@));
            }
            rates.push(rate);
            i = i + 1;
        }
        match lowest_rate_index(&rates) {
            None => Err(Error::InvalidMarginfiBank),
            Some(best) => {
                match self.get_bank_by_mint(&candidate_mints[best]) {
                    Some(entry) => Ok((candidate_mints[best], &entry.1)),
                    None => Err(Error::InvalidMarginfiBank),
                }
            },
        }
    }
}

} // verus!
