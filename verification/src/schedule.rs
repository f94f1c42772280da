//! Partitioning transaction kinds over independent interval timers.
//!
//! When per-kind period overrides are configured, the kinds are bucketed by
//! their target period first, and every kind without an override falls into
//! the default-period bucket; each bucket then ticks on its own timer,
//! forever, with the first tick of the `i`-th bucket delayed by `i` stagger
//! delays to spread the first-round load.
use vstd::prelude::*;

use crate::kind_map::{lemma_entry_in_view, lemma_view_has_entry, KindMap};
use crate::kinds::TransactionKind;

verus! {

broadcast use vstd::seq_lib::lemma_seq_contains_after_push;

/// One interval group: the kinds that share one repeating timer.
#[derive(Clone, Debug)]
pub struct IntervalGroup {
    pub period_ms: u128,
    pub kinds: Vec<TransactionKind>,
}

/// Some override entry names this period.
pub open spec fn spec_entry_with_period(
    entries: Seq<(TransactionKind, u128)>,
    period: u128,
) -> bool {
    exists|i: int| 0 <= i < entries.len() && (#[trigger] entries[i]).1 == period
}

/// Some override entry binds this kind to this period.
pub open spec fn spec_entry_binds(
    entries: Seq<(TransactionKind, u128)>,
    kind: TransactionKind,
    period: u128,
) -> bool {
    exists|i: int|
        0 <= i < entries.len() && (#[trigger] entries[i]).0 == kind && entries[i].1 == period
}

/// A sequence of kinds has no repeated element.
pub open spec fn spec_kinds_distinct(kinds: Seq<TransactionKind>) -> bool {
    forall|t1: int, t2: int| 0 <= t1 < t2 < kinds.len() ==> kinds[t1] != kinds[t2]
}

/// The kinds of the catalog that have no period override.
fn kinds_without_override(
    all_kinds: &Vec<TransactionKind>,
    overrides: &KindMap<u128>,
) -> (r: Vec<TransactionKind>)
    requires
        overrides.wf(),
        spec_kinds_distinct(all_kinds@),
    ensures
        forall|t: int|
            0 <= t < r@.len() ==> all_kinds@.contains(#[trigger] r@[t])
                && !overrides@.contains_key(r@[t]),
        forall|k: TransactionKind|
            all_kinds@.contains(k) && !overrides@.contains_key(k) ==> r@.contains(k),
        spec_kinds_distinct(r@),
{
    let mut r: Vec<TransactionKind> = Vec::new();
    let mut i: usize = 0;
    while i < all_kinds.len()
        invariant
            overrides.wf(),
            i <= all_kinds@.len(),
            spec_kinds_distinct(all_kinds@),
            forall|t: int|
                0 <= t < r@.len() ==> all_kinds@.contains(#[trigger] r@[t])
                    && !overrides@.contains_key(r@[t]),
            forall|p: int|
                0 <= p < i && !overrides@.contains_key(#[trigger] all_kinds@[p]) ==> r@.contains(
                    all_kinds@[p],
                ),
            forall|t: int|
                0 <= t < r@.len() ==> !(exists|p: int|
                    i <= p < all_kinds@.len() && #[trigger] all_kinds@[p] == #[trigger] r@[t]),
            spec_kinds_distinct(r@),
        decreases all_kinds@.len() - i,
    {
        if !overrides.contains_kind(all_kinds[i]) {
            let ghost prev = r@;
            r.push(all_kinds[i]);
            proof {
                assert(all_kinds@.contains(all_kinds@[i as int]));
                assert forall|t: int| 0 <= t < r@.len() implies !(exists|p: int|
                    i + 1 <= p < all_kinds@.len() && #[trigger] all_kinds@[p] == #[trigger] r@[t]) by {
                    if t < prev.len() {
                        assert(r@[t] == prev[t]);
                    } else {
                        assert(r@[t] == all_kinds@[i as int]);
                    }
                }
                assert forall|t1: int, t2: int| 0 <= t1 < t2 < r@.len() implies r@[t1]
                    != r@[t2] by {
                    if t2 == r@.len() - 1 {
                        assert(!(exists|p: int|
                            i <= p < all_kinds@.len() && #[trigger] all_kinds@[p] == prev[t1]));
                        assert(all_kinds@[i as int] != prev[t1]);
                    }
                }
            }
        } else {
            proof {
                assert forall|t: int| 0 <= t < r@.len() implies !(exists|p: int|
                    i + 1 <= p < all_kinds@.len() && #[trigger] all_kinds@[p] == #[trigger] r@[t]) by {}
            }
        }
        i += 1;
    }
    r
}

/// The distinct override periods, in first-appearance order.
fn distinct_periods(entries: &Vec<(TransactionKind, u128)>) -> (ds: Vec<u128>)
    ensures
        forall|i: int| 0 <= i < entries@.len() ==> ds@.contains((#[trigger] entries@[i]).1),
        forall|t: int| 0 <= t < ds@.len() ==> spec_entry_with_period(entries@, #[trigger] ds@[t]),
        forall|t1: int, t2: int| 0 <= t1 < t2 < ds@.len() ==> ds@[t1] != ds@[t2],
{
    let mut ds: Vec<u128> = Vec::new();
    let mut i: usize = 0;
    while i < entries.len()
        invariant
            i <= entries@.len(),
            forall|p: int| 0 <= p < i ==> ds@.contains((#[trigger] entries@[p]).1),
            forall|t: int|
                0 <= t < ds@.len() ==> spec_entry_with_period(entries@, #[trigger] ds@[t]),
            forall|t1: int, t2: int| 0 <= t1 < t2 < ds@.len() ==> ds@[t1] != ds@[t2],
        decreases entries@.len() - i,
    {
        if !contains_period(&ds, entries[i].1) {
            ds.push(entries[i].1);
            proof {
                assert((entries@[i as int]).1 == ds@[ds@.len() - 1]);
                assert(spec_entry_with_period(entries@, ds@[ds@.len() - 1]));
                assert(ds@.contains((entries@[i as int]).1));
            }
        }
        i += 1;
    }
    ds
}

/// Whether the vector holds the period.
fn contains_period(v: &Vec<u128>, period: u128) -> (r: bool)
    ensures
        r == v@.contains(period),
{
    let mut i: usize = 0;
    while i < v.len()
        invariant
            i <= v@.len(),
            forall|j: int| 0 <= j < i ==> v@[j] != period,
        decreases v@.len() - i,
    {
        if v[i] == period {
            return true;
        }
        i += 1;
    }
    false
}

/// The kinds whose override names the given period, in entry order.
fn keys_with_period(entries: &Vec<(TransactionKind, u128)>, period: u128) -> (ks: Vec<
    TransactionKind,
>)
    requires
        forall|p: int, q: int|
            0 <= p < q < entries@.len() ==> (#[trigger] entries@[p]).0 != (
            #[trigger] entries@[q]).0,
    ensures
        forall|t: int|
            0 <= t < ks@.len() ==> spec_entry_binds(entries@, #[trigger] ks@[t], period),
        forall|i: int|
            0 <= i < entries@.len() && (#[trigger] entries@[i]).1 == period ==> ks@.contains(
                entries@[i].0,
            ),
        spec_kinds_distinct(ks@),
{
    let mut ks: Vec<TransactionKind> = Vec::new();
    let mut i: usize = 0;
    while i < entries.len()
        invariant
            i <= entries@.len(),
            forall|p: int, q: int|
                0 <= p < q < entries@.len() ==> (#[trigger] entries@[p]).0 != (
                #[trigger] entries@[q]).0,
            forall|t: int|
                0 <= t < ks@.len() ==> spec_entry_binds(entries@, #[trigger] ks@[t], period),
            forall|p: int|
                0 <= p < i && (#[trigger] entries@[p]).1 == period ==> ks@.contains(
                    entries@[p].0,
                ),
            forall|t: int|
                0 <= t < ks@.len() ==> !(exists|p: int|
                    i <= p < entries@.len() && (#[trigger] entries@[p]).0 == #[trigger] ks@[t]),
            spec_kinds_distinct(ks@),
        decreases entries@.len() - i,
    {
        if entries[i].1 == period {
            let ghost prev = ks@;
            ks.push(entries[i].0);
            proof {
                assert((entries@[i as int]).0 == ks@[ks@.len() - 1] && (entries@[i as int]).1
                    == period);
                assert(spec_entry_binds(entries@, ks@[ks@.len() - 1], period));
                assert(ks@.contains(entries@[i as int].0));
                assert forall|t: int| 0 <= t < ks@.len() implies !(exists|p: int|
                    i + 1 <= p < entries@.len() && (#[trigger] entries@[p]).0 == #[trigger] ks@[t]) by {
                    if t < prev.len() {
                        assert(ks@[t] == prev[t]);
                    } else {
                        assert(ks@[t] == entries@[i as int].0);
                    }
                }
                assert forall|t1: int, t2: int| 0 <= t1 < t2 < ks@.len() implies ks@[t1]
                    != ks@[t2] by {
                    if t2 == ks@.len() - 1 {
                        assert(!(exists|p: int|
                            i <= p < entries@.len() && (#[trigger] entries@[p]).0 == prev[t1]));
                        assert(entries@[i as int].0 != prev[t1]);
                    }
                }
            }
        } else {
            proof {
                assert forall|t: int| 0 <= t < ks@.len() implies !(exists|p: int|
                    i + 1 <= p < entries@.len() && (#[trigger] entries@[p]).0 == #[trigger] ks@[t]) by {}
            }
        }
        i += 1;
    }
    ks
}

/// What membership in one group's kind list tells about a kind: an
/// overridden kind sits in the group of its override period, any other
/// kind comes from the catalog and sits in the default-period group.
pub open spec fn spec_group_member_sound(
    group: IntervalGroup,
    all_kinds: Seq<TransactionKind>,
    overrides: Map<TransactionKind, u128>,
    default_period_ms: u128,
) -> bool {
    forall|t: int|
        0 <= t < group.kinds@.len() ==> {
            let k = #[trigger] group.kinds@[t];
            if overrides.contains_key(k) {
                group.period_ms == overrides[k]
            } else {
                all_kinds.contains(k) && group.period_ms == default_period_ms
            }
        }
}

/// Partitions the kinds over interval groups: every overridden kind lands
/// in the group of its override period, every other catalog kind lands in
/// the default-period group, no kind lands twice in one group, and no two
/// groups share a period — so an overridden kind never also appears in the
/// default-period group, no kind is in two groups, and the groups' kind
/// sets, united, are exactly the catalog's kinds together with the
/// overridden ones.
pub fn partition_groups(
    all_kinds: &Vec<TransactionKind>,
    overrides: &KindMap<u128>,
    default_period_ms: u128,
) -> (groups: Vec<IntervalGroup>)
    requires
        overrides.wf(),
        spec_kinds_distinct(all_kinds@),
    ensures
        forall|g1: int, g2: int|
            0 <= g1 < g2 < groups@.len() ==> (#[trigger] groups@[g1]).period_ms != (
            #[trigger] groups@[g2]).period_ms,
        forall|g: int|
            0 <= g < groups@.len() ==> spec_group_member_sound(
                #[trigger] groups@[g],
                all_kinds@,
                overrides@,
                default_period_ms,
            ),
        forall|k: TransactionKind| #[trigger]
            overrides@.contains_key(k) ==> exists|g: int|
                0 <= g < groups@.len() && (#[trigger] groups@[g]).period_ms == overrides@[k]
                    && groups@[g].kinds@.contains(k),
        forall|k: TransactionKind|
            all_kinds@.contains(k) && !overrides@.contains_key(k) ==> exists|g: int|
                0 <= g < groups@.len() && (#[trigger] groups@[g]).period_ms == default_period_ms
                    && groups@[g].kinds@.contains(k),
        forall|g: int|
            0 <= g < groups@.len() ==> spec_kinds_distinct((#[trigger] groups@[g]).kinds@),
{
    let entries = overrides.entries();
    proof {
        assert forall|i: int| 0 <= i < entries@.len() implies overrides@.contains_key(
            (#[trigger] entries@[i]).0,
        ) && overrides@[entries@[i].0] == entries@[i].1 by {
            lemma_entry_in_view(overrides, i);
        }
    }
    let periods = distinct_periods(entries);
    let default_kinds = kinds_without_override(all_kinds, overrides);
    let mut groups: Vec<IntervalGroup> = Vec::new();
    let mut default_placed = false;
    let mut g: usize = 0;
    while g < periods.len()
        invariant
            overrides.wf(),
            entries@ == overrides.entries_seq(),
            spec_kinds_distinct(all_kinds@),
            forall|p: int, q: int|
                0 <= p < q < entries@.len() ==> (#[trigger] entries@[p]).0 != (
                #[trigger] entries@[q]).0,
            forall|i: int|
                0 <= i < entries@.len() ==> overrides@.contains_key((#[trigger] entries@[i]).0)
                    && overrides@[entries@[i].0] == entries@[i].1,
            forall|i: int|
                0 <= i < entries@.len() ==> periods@.contains((#[trigger] entries@[i]).1),
            forall|t: int|
                0 <= t < periods@.len() ==> spec_entry_with_period(
                    entries@,
                    #[trigger] periods@[t],
                ),
            forall|t1: int, t2: int|
                0 <= t1 < t2 < periods@.len() ==> periods@[t1] != periods@[t2],
            forall|t: int|
                0 <= t < default_kinds@.len() ==> all_kinds@.contains(
                    #[trigger] default_kinds@[t],
                ) && !overrides@.contains_key(default_kinds@[t]),
            forall|k: TransactionKind|
                all_kinds@.contains(k) && !overrides@.contains_key(k)
                    ==> default_kinds@.contains(k),
            spec_kinds_distinct(default_kinds@),
            g <= periods@.len(),
            groups@.len() == g,
            forall|g2: int| 0 <= g2 < g ==> (#[trigger] groups@[g2]).period_ms == periods@[g2],
            forall|g2: int|
                0 <= g2 < g ==> spec_group_member_sound(
                    #[trigger] groups@[g2],
                    all_kinds@,
                    overrides@,
                    default_period_ms,
                ),
            forall|i: int, g2: int|
                0 <= i < entries@.len() && 0 <= g2 < g && (#[trigger] entries@[i]).1 == (
                #[trigger] groups@[g2]).period_ms ==> groups@[g2].kinds@.contains(entries@[i].0),
            forall|g2: int| 0 <= g2 < g ==> spec_kinds_distinct((#[trigger] groups@[g2]).kinds@),
            default_placed ==> exists|g2: int|
                0 <= g2 < g && (#[trigger] groups@[g2]).period_ms == default_period_ms,
            !default_placed ==> forall|g2: int|
                0 <= g2 < g ==> (#[trigger] groups@[g2]).period_ms != default_period_ms
                    || default_kinds@.len() == 0,
            default_placed ==> forall|k: TransactionKind| #[trigger]
                default_kinds@.contains(k) ==> exists|g2: int|
                    0 <= g2 < g && (#[trigger] groups@[g2]).period_ms == default_period_ms
                        && groups@[g2].kinds@.contains(k),
        decreases periods@.len() - g,
    {
        let period = periods[g];
        let mut ks = keys_with_period(entries, period);
        let ghost override_ks = ks@;
        let ghost mut appended_default = false;
        if default_kinds.len() > 0 && period == default_period_ms {
            let mut extra = clone_kinds(&default_kinds);
            ks.append(&mut extra);
            default_placed = true;
            proof {
                appended_default = true;
            }
        }
        proof {
            if appended_default {
                assert(ks@ =~= override_ks + default_kinds@);
            } else {
                assert(ks@ == override_ks);
            }
            assert forall|t1: int, t2: int| 0 <= t1 < t2 < ks@.len() implies ks@[t1]
                != ks@[t2] by {
                if appended_default {
                    if t1 < override_ks.len() && override_ks.len() <= t2 {
                        assert(spec_entry_binds(entries@, override_ks[t1], period));
                        let i = choose|i: int|
                            0 <= i < entries@.len() && (#[trigger] entries@[i]).0
                                == override_ks[t1] && entries@[i].1 == period;
                        assert(overrides@.contains_key(ks@[t1]));
                        assert(ks@[t2] == default_kinds@[t2 - override_ks.len()]);
                        assert(!overrides@.contains_key(ks@[t2]));
                    } else if t2 < override_ks.len() {
                        assert(override_ks[t1] != override_ks[t2]);
                    } else {
                        assert(ks@[t1] == default_kinds@[t1 - override_ks.len()]);
                        assert(ks@[t2] == default_kinds@[t2 - override_ks.len()]);
                    }
                }
            }
        }
        let ghost prev_groups = groups@;
        groups.push(IntervalGroup { period_ms: period, kinds: ks });
        proof {
            let new_group = groups@[groups@.len() - 1];
            assert(new_group.period_ms == periods@[g as int]);
            assert(spec_group_member_sound(
                new_group,
                all_kinds@,
                overrides@,
                default_period_ms,
            )) by {
                assert forall|t: int| 0 <= t < new_group.kinds@.len() implies {
                    let k = #[trigger] new_group.kinds@[t];
                    if overrides@.contains_key(k) {
                        new_group.period_ms == overrides@[k]
                    } else {
                        all_kinds@.contains(k) && new_group.period_ms == default_period_ms
                    }
                } by {
                    if t < override_ks.len() {
                        assert(spec_entry_binds(entries@, override_ks[t], period));
                        let i = choose|i: int|
                            0 <= i < entries@.len() && (#[trigger] entries@[i]).0
                                == override_ks[t] && entries@[i].1 == period;
                        assert(overrides@.contains_key(new_group.kinds@[t]));
                        assert(overrides@[new_group.kinds@[t]] == period);
                    } else {
                        assert(new_group.kinds@[t] == default_kinds@[t - override_ks.len()]);
                    }
                }
            }
            assert forall|i: int, g2: int|
                0 <= i < entries@.len() && 0 <= g2 < g + 1 && (#[trigger] entries@[i]).1 == (
                #[trigger] groups@[g2]).period_ms implies groups@[g2].kinds@.contains(
                entries@[i].0,
            ) by {
                if g2 < g {
                    assert(groups@[g2] == prev_groups[g2]);
                } else {
                    assert(groups@[g2] == new_group);
                    assert(override_ks.contains(entries@[i].0));
                    let t = choose|t: int|
                        0 <= t < override_ks.len() && override_ks[t] == entries@[i].0;
                    assert(new_group.kinds@[t] == entries@[i].0);
                }
            }
            if default_placed && !appended_default {
                let g0 = choose|g0: int|
                    0 <= g0 < g && (#[trigger] prev_groups[g0]).period_ms == default_period_ms;
                assert(groups@[g0] == prev_groups[g0]);
                assert(groups@[g0].period_ms == default_period_ms);
            }
            if default_placed {
                assert forall|k: TransactionKind| #[trigger]
                    default_kinds@.contains(k) implies exists|g2: int|
                    0 <= g2 < g + 1 && (#[trigger] groups@[g2]).period_ms == default_period_ms
                        && groups@[g2].kinds@.contains(k) by {
                    if appended_default {
                        let t = choose|t: int|
                            0 <= t < default_kinds@.len() && default_kinds@[t] == k;
                        assert(new_group.kinds@[override_ks.len() + t] == k);
                        assert(new_group.kinds@.contains(k));
                        assert(new_group.period_ms == default_period_ms);
                    } else {
                        let g2 = choose|g2: int|
                            0 <= g2 < g && (#[trigger] prev_groups[g2]).period_ms
                                == default_period_ms && prev_groups[g2].kinds@.contains(k);
                        assert(groups@[g2] == prev_groups[g2]);
                        assert(groups@[g2].kinds@.contains(k));
                    }
                }
            }
        }
        g += 1;
    }
    if !default_placed && default_kinds.len() > 0 {
        let ghost prev_groups = groups@;
        groups.push(IntervalGroup { period_ms: default_period_ms, kinds: default_kinds });
        proof {
            let last = groups@.len() - 1;
            assert(groups@[last].period_ms == default_period_ms);
            assert forall|k: TransactionKind|
                all_kinds@.contains(k) && !overrides@.contains_key(k) implies exists|g2: int|
                0 <= g2 < groups@.len() && (#[trigger] groups@[g2]).period_ms == default_period_ms
                    && groups@[g2].kinds@.contains(k) by {
                assert(groups@[last].kinds@.contains(k));
            }
            assert forall|i: int, g2: int|
                0 <= i < entries@.len() && 0 <= g2 < groups@.len() && (#[trigger] entries@[i]).1
                    == (#[trigger] groups@[g2]).period_ms implies groups@[g2].kinds@.contains(
                entries@[i].0,
            ) by {
                if g2 < groups@.len() - 1 {
                    assert(groups@[g2] == prev_groups[g2]);
                } else {
                    assert(periods@.contains(entries@[i].1));
                    let t = choose|t: int|
                        0 <= t < periods@.len() && periods@[t] == entries@[i].1;
                    assert(prev_groups[t].period_ms == entries@[i].1);
                    assert(groups@[t] == prev_groups[t]);
                    assert(false);
                }
            }
        }
    }
    proof {
        assert forall|k: TransactionKind| #[trigger] overrides@.contains_key(k) implies exists|
            g2: int,
        |
            0 <= g2 < groups@.len() && (#[trigger] groups@[g2]).period_ms == overrides@[k]
                && groups@[g2].kinds@.contains(k) by {
            lemma_view_has_entry(overrides, k);
            let i = choose|i: int|
                0 <= i < entries@.len() && (#[trigger] entries@[i]).0 == k && entries@[i].1
                    == overrides@[k];
            assert(periods@.contains(entries@[i].1));
            let t = choose|t: int| 0 <= t < periods@.len() && periods@[t] == entries@[i].1;
            assert(groups@[t].period_ms == overrides@[k]);
            assert(groups@[t].kinds@.contains(k));
        }
        if default_placed {
            assert forall|k: TransactionKind|
                all_kinds@.contains(k) && !overrides@.contains_key(k) implies exists|g2: int|
                0 <= g2 < groups@.len() && (#[trigger] groups@[g2]).period_ms == default_period_ms
                    && groups@[g2].kinds@.contains(k) by {
                assert(default_kinds@.contains(k));
            }
        }
    }
    groups
}

/// Copies a list of kinds.
fn clone_kinds(v: &Vec<TransactionKind>) -> (r: Vec<TransactionKind>)
    ensures
        r@ == v@,
{
    let mut r: Vec<TransactionKind> = Vec::new();
    let mut i: usize = 0;
    while i < v.len()
        invariant
            i <= v@.len(),
            r@ == v@.take(i as int),
        decreases v@.len() - i,
    {
        r.push(v[i]);
        proof {
            assert(r@ =~= v@.take(i + 1));
        }
        i += 1;
    }
    proof {
        assert(v@.take(v@.len() as int) =~= v@);
    }
    r
}

/// The delay before a group's first tick: the group's index times the
/// configured stagger delay, so sibling groups start spread out instead of
/// firing their first rounds together. Saturates at the top of the range.
pub fn group_start_delay_ms(group_index: usize, stagger_ms: u128) -> (r: u128)
    ensures
        group_index * stagger_ms <= u128::MAX ==> r == group_index * stagger_ms,
        group_index * stagger_ms > u128::MAX ==> r == u128::MAX,
{
    if stagger_ms == 0 {
        return 0;
    }
    let idx = group_index as u128;
    if idx <= u128::MAX / stagger_ms {
        proof {
            assert(idx * stagger_ms <= (u128::MAX / stagger_ms) * stagger_ms) by (nonlinear_arith)
                requires
                    0 <= idx <= u128::MAX / stagger_ms,
                    stagger_ms > 0,
            ;
            assert((u128::MAX / stagger_ms) * stagger_ms <= u128::MAX) by (nonlinear_arith)
                requires
                    stagger_ms > 0,
            ;
        }
        idx * stagger_ms
    } else {
        proof {
            assert(idx * stagger_ms > u128::MAX) by (nonlinear_arith)
                requires
                    idx > u128::MAX / stagger_ms,
                    stagger_ms > 0,
                    idx * stagger_ms >= 0,
            ;
        }
        u128::MAX
    }
}

} // verus!
