//! The execution engine: the catalog of registered samples and the
//! decisions that drive the scheduling loop.
//!
//! The engine owns the catalog, settles which kinds run on which timer,
//! and answers lookups for the one-shot execution path; the timers, the
//! RPC transport and the task spawning around it are external.
use vstd::prelude::*;

use crate::config::Opts;
use crate::error::AppError;
use crate::kind_map::KindMap;
use crate::kinds::TransactionKind;
use crate::samples::{sample_info_of, spec_sample_name, SampleInfo};
use crate::schedule::{partition_groups, spec_kinds_distinct, IntervalGroup};

verus! {

/// What membership in one scheduled group's kind list tells about a kind,
/// judged against the engine's catalog: an overridden kind sits in the
/// group of its override period, any other kind is registered and sits in
/// the default-period group.
pub open spec fn spec_group_sound_for_catalog(
    group: IntervalGroup,
    catalog: Map<TransactionKind, SampleInfo>,
    overrides: Map<TransactionKind, u128>,
    default_period_ms: u128,
) -> bool {
    forall|t: int|
        0 <= t < group.kinds@.len() ==> {
            let k = #[trigger] group.kinds@[t];
            if overrides.contains_key(k) {
                group.period_ms == overrides[k]
            } else {
                catalog.contains_key(k) && group.period_ms == default_period_ms
            }
        }
}

/// The execution engine: an immutable-after-setup catalog mapping each
/// transaction kind to its registered sample.
#[derive(Debug)]
pub struct Engine {
    transactions: KindMap<SampleInfo>,
}

impl View for Engine {
    type V = Map<TransactionKind, SampleInfo>;

    closed spec fn view(&self) -> Map<TransactionKind, SampleInfo> {
        self.transactions@
    }
}

impl Engine {
    /// The catalog holds at most one sample per kind.
    pub closed spec fn wf(&self) -> bool {
        self.transactions.wf()
    }

    /// The catalog's entries, in registration order.
    pub closed spec fn catalog_entries(&self) -> Seq<(TransactionKind, SampleInfo)> {
        self.transactions.entries_seq()
    }

    /// An engine with an empty catalog.
    pub fn new() -> (r: Engine)
        ensures
            r.wf(),
            r@ == Map::<TransactionKind, SampleInfo>::empty(),
    {
        Engine { transactions: KindMap::new() }
    }

    /// An engine preloaded with the whole set of predefined samples — all
    /// but the derived-key sample, which is not yet functional.
    pub fn with_default_transactions() -> (r: Engine)
        ensures
            r.wf(),
            r@.dom() =~= set![
                TransactionKind::TokenTransferDefault,
                TransactionKind::TokenTransferFinal,
                TransactionKind::TokenTransferIncludedFinal,
                TransactionKind::FungibleTokenTransfer,
                TransactionKind::Swap,
                TransactionKind::MpcSignEcdsa,
                TransactionKind::MpcSignEddsa,
            ],
            forall|k: TransactionKind| #[trigger]
                r@.contains_key(k) ==> r@[k].kind == k && r@[k].name@ == spec_sample_name(k),
    {
        let mut engine = Engine::new();
        engine.add_transaction(sample_info_of(TransactionKind::TokenTransferDefault));
        engine.add_transaction(sample_info_of(TransactionKind::TokenTransferFinal));
        engine.add_transaction(sample_info_of(TransactionKind::TokenTransferIncludedFinal));
        engine.add_transaction(sample_info_of(TransactionKind::FungibleTokenTransfer));
        engine.add_transaction(sample_info_of(TransactionKind::Swap));
        engine.add_transaction(sample_info_of(TransactionKind::MpcSignEcdsa));
        engine.add_transaction(sample_info_of(TransactionKind::MpcSignEddsa));
        engine
    }

    /// Registers a sample under its own kind, replacing and returning the
    /// previously registered sample of that kind, if any; afterwards the
    /// catalog holds exactly one sample for the kind.
    pub fn add_transaction(&mut self, tx: SampleInfo) -> (prev: Option<SampleInfo>)
        requires
            old(self).wf(),
        ensures
            final(self).wf(),
            final(self)@ == old(self)@.insert(tx.kind, tx),
            match prev {
                Some(p) => old(self)@.contains_key(tx.kind) && old(self)@[tx.kind] == p,
                None => !old(self)@.contains_key(tx.kind),
            },
    {
        let kind = tx.kind;
        self.transactions.insert(kind, tx)
    }

    /// The catalog of registered samples.
    pub fn transactions(&self) -> (r: &KindMap<SampleInfo>)
        ensures
            r@ == self@,
            r.entries_seq() == self.catalog_entries(),
            self.wf() ==> r.wf(),
    {
        &self.transactions
    }

    /// The registered kinds, in registration order; pairwise distinct.
    pub fn kinds(&self) -> (r: Vec<TransactionKind>)
        requires
            self.wf(),
        ensures
            spec_kinds_distinct(r@),
            forall|k: TransactionKind| r@.contains(k) == self@.contains_key(k),
    {
        self.transactions.kinds()
    }

    /// Looks up the sample registered for a kind, for the one-shot
    /// execution path: an unregistered kind is a distinct, user-facing
    /// error, never silently dropped.
    pub fn sample_for(&self, kind: TransactionKind) -> (r: Result<&SampleInfo, AppError>)
        requires
            self.wf(),
        ensures
            match r {
                Ok(info) => self@.contains_key(kind) && self@[kind] == *info,
                Err(e) => !self@.contains_key(kind) && (e matches
                AppError::UnknownTransactionType(k) && k == kind),
            },
    {
        match self.transactions.get(kind) {
            Some(info) => Ok(info),
            None => Err(AppError::UnknownTransactionType(kind)),
        }
    }

    /// Settles which kinds tick on which timer: without overrides, one
    /// group at the default period runs the whole catalog; with overrides,
    /// the kinds are partitioned by period as `partition_groups` says.
    pub fn interval_groups(&self, opts: &Opts) -> (groups: Vec<IntervalGroup>)
        requires
            self.wf(),
            match opts.interval_overwrite {
                Some(ow) => ow.wf(),
                None => true,
            },
        ensures
            match opts.interval_overwrite {
                None => groups@.len() == 1 && groups@[0].period_ms == opts.period_ms && forall|
                    k: TransactionKind,
                |
                    groups@[0].kinds@.contains(k) == self@.contains_key(k),
                Some(ow) => {
                    &&& forall|g1: int, g2: int|
                        0 <= g1 < g2 < groups@.len() ==> (#[trigger] groups@[g1]).period_ms != (
                        #[trigger] groups@[g2]).period_ms
                    &&& forall|g: int|
                        0 <= g < groups@.len() ==> spec_group_sound_for_catalog(
                            #[trigger] groups@[g],
                            self@,
                            ow@,
                            opts.period_ms,
                        )
                    &&& forall|k: TransactionKind| #[trigger]
                        ow@.contains_key(k) ==> exists|g: int|
                            0 <= g < groups@.len() && (#[trigger] groups@[g]).period_ms == ow@[k]
                                && groups@[g].kinds@.contains(k)
                    &&& forall|k: TransactionKind|
                        self@.contains_key(k) && !ow@.contains_key(k) ==> exists|g: int|
                            0 <= g < groups@.len() && (#[trigger] groups@[g]).period_ms
                                == opts.period_ms && groups@[g].kinds@.contains(k)
                    &&& forall|g: int|
                        0 <= g < groups@.len() ==> spec_kinds_distinct(
                            (#[trigger] groups@[g]).kinds@,
                        )
                },
            },
    {
        let all_kinds = self.kinds();
        match &opts.interval_overwrite {
            Some(overrides) => {
                let groups = partition_groups(&all_kinds, overrides, opts.period_ms);
                proof {
                    assert forall|g: int| 0 <= g < groups@.len() implies
                        spec_group_sound_for_catalog(
                        #[trigger] groups@[g],
                        self@,
                        overrides@,
                        opts.period_ms,
                    ) by {
                        assert(crate::schedule::spec_group_member_sound(
                            groups@[g],
                            all_kinds@,
                            overrides@,
                            opts.period_ms,
                        ));
                        assert forall|t: int| 0 <= t < groups@[g].kinds@.len() implies {
                            let k = #[trigger] groups@[g].kinds@[t];
                            if overrides@.contains_key(k) {
                                groups@[g].period_ms == overrides@[k]
                            } else {
                                self@.contains_key(k) && groups@[g].period_ms == opts.period_ms
                            }
                        } by {
                            let k = groups@[g].kinds@[t];
                            if !overrides@.contains_key(k) {
                                assert(all_kinds@.contains(k));
                            }
                        }
                    }
                    assert forall|k: TransactionKind|
                        self@.contains_key(k) && !overrides@.contains_key(k) implies exists|
                        g: int,
                    |
                        0 <= g < groups@.len() && (#[trigger] groups@[g]).period_ms
                            == opts.period_ms && groups@[g].kinds@.contains(k) by {
                        assert(all_kinds@.contains(k));
                    }
                }
                groups
            },
            None => {
                let ghost all = all_kinds@;
                let mut groups: Vec<IntervalGroup> = Vec::new();
                groups.push(IntervalGroup { period_ms: opts.period_ms, kinds: all_kinds });
                proof {
                    assert(groups@[0].kinds@ == all);
                    assert forall|k: TransactionKind| groups@[0].kinds@.contains(k)
                        == self@.contains_key(k) by {
                        assert(all.contains(k) == self@.contains_key(k));
                    }
                }
                groups
            },
        }
    }
}

impl Default for Engine {
    /// An engine with an empty catalog.
    fn default() -> (r: Engine)
        ensures
            r.wf(),
            r@ == Map::<TransactionKind, SampleInfo>::empty(),
    {
        Engine::new()
    }
}

} // verus!
