//! The store of the latest feed of every oracle, in two partitions, one for
//! each oracle format.
//!
//! Each partition is a list of `(address, feed)` pairs in which no address
//! stands twice. An update replaces the feed of its oracle or adds the
//! oracle; nothing is ever removed and no history is kept. A caller that
//! shares the store between tasks puts each partition behind a lock of its
//! own and calls `keyed::upsert` and `keyed::find` on it.
use crate::address::Address;
use crate::keyed::{
    as_map, distinct_keys, find, first_value, lemma_upsert_idempotent, upsert, upserted,
};
use crate::oracle::{OracleFeed, PythPriceFeed, SwitchboardPriceFeed};
use vstd::prelude::*;

verus! {

/// The oracle format that a bank declares.
#[derive(Clone, Copy, Debug, PartialEq, Eq, Structural)]
pub enum OracleSetup {
    /// The bank has no oracle.
    Unset,
    PythEma,
    SwitchboardV2,
}

/// One new feed for one oracle.
#[derive(Clone, Copy, Debug)]
pub enum StateUpdate {
    PythOracle((Address, PythPriceFeed)),
    SwitchboardOracle((Address, SwitchboardPriceFeed)),
}

/// The two partitions after an update.
pub open spec fn after_update(
    pyth_oracles: Seq<(Address, PythPriceFeed)>,
    switchboard_oracles: Seq<(Address, SwitchboardPriceFeed)>,
    update: StateUpdate,
) -> (Seq<(Address, PythPriceFeed)>, Seq<(Address, SwitchboardPriceFeed)>) {
    match update {
        StateUpdate::PythOracle(entry) => (
            upserted(pyth_oracles, entry.0, entry.1),
            switchboard_oracles,
        ),
        StateUpdate::SwitchboardOracle(entry) => (
            pyth_oracles,
            upserted(switchboard_oracles, entry.0, entry.1),
        ),
    }
}

/// Taking the same update in a second time changes nothing.
pub proof fn lemma_update_idempotent(
    pyth_oracles: Seq<(Address, PythPriceFeed)>,
    switchboard_oracles: Seq<(Address, SwitchboardPriceFeed)>,
    update: StateUpdate,
)
    ensures
        ({
            let once = after_update(pyth_oracles, switchboard_oracles, update);
            after_update(once.0, once.1, update) == once
        }),
{
    match update {
        StateUpdate::PythOracle(entry) => {
            lemma_upsert_idempotent(pyth_oracles, entry.0, entry.1);
        },
        StateUpdate::SwitchboardOracle(entry) => {
            lemma_upsert_idempotent(switchboard_oracles, entry.0, entry.1);
        },
    }
}

/// The latest feed of every oracle seen so far.
#[derive(Debug)]
pub struct OraclesState {
    pub pyth_oracles: Vec<(Address, PythPriceFeed)>,
    pub switchboard_oracles: Vec<(Address, SwitchboardPriceFeed)>,
}

impl OraclesState {
    /// Whether no oracle stands twice in a partition.
    pub open spec fn wf(&self) -> bool {
        &&& distinct_keys(self.pyth_oracles@)
        &&& distinct_keys(self.switchboard_oracles@)
    }

    /// The Pyth partition, as a map from the bytes of an address.
    pub open spec fn pyth_map(&self) -> Map<Seq<u8>, PythPriceFeed> {
        as_map(self.pyth_oracles@)
    }

    /// The Switchboard partition, as a map from the bytes of an address.
    pub open spec fn switchboard_map(&self) -> Map<Seq<u8>, SwitchboardPriceFeed> {
        as_map(self.switchboard_oracles@)
    }

    /// The feed that a lookup by format and address finds.
    pub open spec fn oracle(&self, oracle_type: OracleSetup, address: Seq<u8>) -> Option<
        OracleFeed,
    > {
        match oracle_type {
            OracleSetup::PythEma => match first_value(self.pyth_oracles@, address) {
                Some(feed) => Some(OracleFeed::Pyth(feed)),
                None => None,
            },
            OracleSetup::SwitchboardV2 => match first_value(self.switchboard_oracles@, address) {
                Some(feed) => Some(OracleFeed::Switchboard(feed)),
                None => None,
            },
            OracleSetup::Unset => None,
        }
    }

    /// A store that knows no oracle.
    pub fn new() -> (r: OraclesState)
        ensures
            r.wf(),
            r.pyth_oracles@.len() == 0,
            r.switchboard_oracles@.len() == 0,
            r.pyth_map() == Map::<Seq<u8>, PythPriceFeed>::empty(),
            r.switchboard_map() == Map::<Seq<u8>, SwitchboardPriceFeed>::empty(),
    {
        let r = OraclesState { pyth_oracles: Vec::new(), switchboard_oracles: Vec::new() };
        assert(r.pyth_map() =~= Map::<Seq<u8>, PythPriceFeed>::empty());
        assert(r.switchboard_map() =~= Map::<Seq<u8>, SwitchboardPriceFeed>::empty());
        r
    }

    /// The latest feed of the oracle at `oracle_address`, looked up in the
    /// partition of its format. A bank without an oracle format has no feed.
    pub fn get_oracle(&self, oracle_type: OracleSetup, oracle_address: &Address) -> (r: Option<
        OracleFeed,
    >)
        ensures
            r == self.oracle(oracle_type, oracle_address@),
    {
        match oracle_type {
            OracleSetup::PythEma => match find(&self.pyth_oracles, oracle_address) {
                Some(feed) => Some(OracleFeed::Pyth(*feed)),
                None => None,
            },
            OracleSetup::SwitchboardV2 => match find(&self.switchboard_oracles, oracle_address) {
                Some(feed) => Some(OracleFeed::Switchboard(*feed)),
                None => None,
            },
            OracleSetup::Unset => None,
        }
    }

    /// Takes one update in: the feed of its oracle is replaced, or the
    /// oracle is added to the partition of its format. The other partition
    /// stays as it is.
    pub fn apply_update(&mut self, update: StateUpdate)
        ensures
            match update {
                StateUpdate::PythOracle(entry) => {
                    &&& final(self).pyth_oracles@ == upserted(
                        old(self).pyth_oracles@,
                        entry.0,
                        entry.1,
                    )
                    &&& final(self).pyth_map() == old(self).pyth_map().insert(entry.0@, entry.1)
                    &&& final(self).switchboard_oracles@ == old(self).switchboard_oracles@
                },
                StateUpdate::SwitchboardOracle(entry) => {
                    &&& final(self).switchboard_oracles@ == upserted(
                        old(self).switchboard_oracles@,
                        entry.0,
                        entry.1,
                    )
                    &&& final(self).switchboard_map() == old(self).switchboard_map().insert(
                        entry.0@,
                        entry.1,
                    )
                    &&& final(self).pyth_oracles@ == old(self).pyth_oracles@
                },
            },
            final(self).pyth_oracles@ == after_update(
                old(self).pyth_oracles@,
                old(self).switchboard_oracles@,
                update,
            ).0,
            final(self).switchboard_oracles@ == after_update(
                old(self).pyth_oracles@,
                old(self).switchboard_oracles@,
                update,
            ).1,
            old(self).wf() ==> final(self).wf(),
    {
        match update {
            StateUpdate::PythOracle(entry) => {
                upsert(&mut self.pyth_oracles, entry.0, entry.1);
            },
            StateUpdate::SwitchboardOracle(entry) => {
                upsert(&mut self.switchboard_oracles, entry.0, entry.1);
            },
        }
    }
}

} // verus!
