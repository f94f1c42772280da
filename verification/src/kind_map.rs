//! An association from transaction kind to a value, with at most one entry
//! per kind. The transaction catalog and the per-kind interval overrides are
//! both instances of it.
use vstd::prelude::*;

use crate::kinds::TransactionKind;

verus! {

/// The mathematical map held by a sequence of (kind, value) entries; later
/// entries win, though a well-formed container never repeats a kind.
pub open spec fn map_of<V>(entries: Seq<(TransactionKind, V)>) -> Map<TransactionKind, V>
    decreases entries.len(),
{
    if entries.len() == 0 {
        Map::empty()
    } else {
        map_of(entries.drop_last()).insert(entries.last().0, entries.last().1)
    }
}

/// How many entries carry the given kind.
pub open spec fn count_kind<V>(entries: Seq<(TransactionKind, V)>, kind: TransactionKind) -> nat
    decreases entries.len(),
{
    if entries.len() == 0 {
        0
    } else {
        count_kind(entries.drop_last(), kind) + if entries.last().0 == kind {
            1nat
        } else {
            0nat
        }
    }
}

/// A mapping from transaction kind to a value, holding at most one entry per
/// kind; registering an already-present kind replaces its value and hands the
/// previous one back.
#[derive(Debug)]
pub struct KindMap<V> {
    entries: Vec<(TransactionKind, V)>,
}

impl<V> View for KindMap<V> {
    type V = Map<TransactionKind, V>;

    closed spec fn view(&self) -> Map<TransactionKind, V> {
        map_of(self.entries@)
    }
}

impl<V> KindMap<V> {
    /// The entries in registration order.
    pub closed spec fn entries_seq(&self) -> Seq<(TransactionKind, V)> {
        self.entries@
    }

    /// Each kind appears in at most one entry.
    pub open spec fn wf(&self) -> bool {
        forall|i: int, j: int|
            0 <= i < j < self.entries_seq().len() ==> (#[trigger] self.entries_seq()[i]).0 != (
            #[trigger] self.entries_seq()[j]).0
    }

    /// An empty mapping.
    pub fn new() -> (r: KindMap<V>)
        ensures
            r@ == Map::<TransactionKind, V>::empty(),
            r.entries_seq() == Seq::<(TransactionKind, V)>::empty(),
            r.wf(),
    {
        KindMap { entries: Vec::new() }
    }

    /// The number of kinds registered.
    pub fn len(&self) -> (r: usize)
        requires
            self.wf(),
        ensures
            r == self.entries_seq().len(),
            r == self@.dom().len(),
    {
        proof {
            assert(self.entries_seq() == self.entries@);
            lemma_map_of_dom_len(self.entries@);
        }
        self.entries.len()
    }

    /// Registers `value` under `kind`: inserts it, replacing and returning
    /// the previous value if the kind was already present. Afterwards the
    /// mapping holds exactly one entry for `kind`.
    pub fn insert(&mut self, kind: TransactionKind, value: V) -> (prev: Option<V>)
        requires
            old(self).wf(),
        ensures
            final(self).wf(),
            final(self)@ == old(self)@.insert(kind, value),
            count_kind(final(self).entries_seq(), kind) == 1,
            match prev {
                Some(v) => old(self)@.contains_key(kind) && old(self)@[kind] == v,
                None => !old(self)@.contains_key(kind),
            },
    {
        let ghost old_entries = self.entries@;
        proof {
            assert(old_entries == old(self).entries_seq());
            assert(old(self)@ == map_of(old_entries));
        }
        let mut i: usize = 0;
        while i < self.entries.len()
            invariant
                self.entries@ == old_entries,
                old(self)@ == map_of(old_entries),
                old(self).entries_seq() == old_entries,
                i <= old_entries.len(),
                forall|j: int| 0 <= j < i ==> (#[trigger] old_entries[j]).0 != kind,
                forall|p: int, q: int|
                    0 <= p < q < old_entries.len() ==> (#[trigger] old_entries[p]).0 != (
                    #[trigger] old_entries[q]).0,
            decreases old_entries.len() - i,
        {
            if self.entries[i].0 == kind {
                let prev_entry = self.entries.remove(i);
                self.entries.insert(i, (kind, value));
                proof {
                    assert((old_entries[i as int]).0 == kind);
                    assert(self.entries@ =~= old_entries.update(i as int, (kind, value)));
                    lemma_map_of_update(old_entries, i as int, kind, value);
                    lemma_map_of_index(old_entries, i as int);
                    lemma_count_update(old_entries, i as int, kind, value);
                    lemma_wf_count(old_entries, kind);
                    assert(self.entries_seq() == self.entries@);
                    assert(self@ == map_of(self.entries@));
                    assert(old(self)@ == map_of(old_entries));
                }
                return Some(prev_entry.1);
            }
            i += 1;
        }
        self.entries.push((kind, value));
        proof {
            assert(self.entries_seq() == self.entries@);
            assert(self@ == map_of(self.entries@));
            assert(self.entries@.drop_last() =~= old_entries);
            lemma_map_of_absent(old_entries, kind);
            lemma_count_absent(old_entries, kind);
            assert(count_kind(self.entries@, kind) == 1);
            assert forall|p: int, q: int| 0 <= p < q < self.entries@.len() implies (
            #[trigger] self.entries@[p]).0 != (#[trigger] self.entries@[q]).0 by {
                if q < self.entries@.len() - 1 {
                    assert(old_entries[p] == self.entries@[p]);
                    assert(old_entries[q] == self.entries@[q]);
                } else {
                    assert(old_entries[p] == self.entries@[p]);
                    assert((old_entries[p]).0 != kind);
                }
            }
        }
        None
    }

    /// Looks the kind up, returning a reference to its value if present.
    pub fn get(&self, kind: TransactionKind) -> (r: Option<&V>)
        requires
            self.wf(),
        ensures
            match r {
                Some(v) => self@.contains_key(kind) && self@[kind] == *v,
                None => !self@.contains_key(kind),
            },
    {
        let mut i: usize = 0;
        while i < self.entries.len()
            invariant
                self.wf(),
                i <= self.entries_seq().len(),
                forall|j: int| 0 <= j < i ==> (#[trigger] self.entries_seq()[j]).0 != kind,
            decreases self.entries_seq().len() - i,
        {
            if self.entries[i].0 == kind {
                proof {
                    lemma_map_of_index(self.entries@, i as int);
                }
                return Some(&self.entries[i].1);
            }
            i += 1;
        }
        proof {
            lemma_map_of_absent(self.entries@, kind);
        }
        None
    }

    /// Whether the kind is registered.
    pub fn contains_kind(&self, kind: TransactionKind) -> (r: bool)
        requires
            self.wf(),
        ensures
            r == self@.contains_key(kind),
    {
        self.get(kind).is_some()
    }

    /// The registered kinds, in registration order; pairwise distinct.
    pub fn kinds(&self) -> (r: Vec<TransactionKind>)
        requires
            self.wf(),
        ensures
            r@ == self.entries_seq().map_values(|e: (TransactionKind, V)| e.0),
            forall|i: int, j: int| 0 <= i < j < r@.len() ==> r@[i] != r@[j],
            forall|k: TransactionKind| r@.contains(k) == self@.contains_key(k),
    {
        let mut r: Vec<TransactionKind> = Vec::new();
        let mut i: usize = 0;
        while i < self.entries.len()
            invariant
                self.wf(),
                i <= self.entries_seq().len(),
                r@ == self.entries_seq().take(i as int).map_values(
                    |e: (TransactionKind, V)| e.0,
                ),
            decreases self.entries_seq().len() - i,
        {
            r.push(self.entries[i].0);
            proof {
                assert(self.entries_seq().take(i + 1) =~= self.entries_seq().take(i as int).push(
                    self.entries_seq()[i as int],
                ));
                assert(r@ =~= self.entries_seq().take(i + 1).map_values(
                    |e: (TransactionKind, V)| e.0,
                ));
            }
            i += 1;
        }
        proof {
            assert(self.entries_seq().take(self.entries_seq().len() as int)
                =~= self.entries_seq());
            assert forall|k: TransactionKind| r@.contains(k) == self@.contains_key(k) by {
                lemma_map_of_contains(self.entries@, k);
                if self@.contains_key(k) {
                    let i = choose|i: int|
                        0 <= i < self.entries@.len() && (#[trigger] self.entries@[i]).0 == k;
                    assert(r@[i] == k);
                }
                if r@.contains(k) {
                    let i = choose|i: int| 0 <= i < r@.len() && r@[i] == k;
                    assert((self.entries@[i]).0 == k);
                }
            }
        }
        r
    }

    /// A reference to the entries, in registration order.
    pub fn entries(&self) -> (r: &Vec<(TransactionKind, V)>)
        ensures
            r@ == self.entries_seq(),
    {
        &self.entries
    }
}

/// In a well-formed mapping, every stored entry is what the map view says
/// of its kind.
pub proof fn lemma_entry_in_view<V>(m: &KindMap<V>, i: int)
    requires
        m.wf(),
        0 <= i < m.entries_seq().len(),
    ensures
        m@.contains_key(m.entries_seq()[i].0),
        m@[m.entries_seq()[i].0] == m.entries_seq()[i].1,
{
    lemma_map_of_index(m.entries_seq(), i);
}

/// In a well-formed mapping, every kind the map view holds is stored in
/// some entry, with the view's value.
pub proof fn lemma_view_has_entry<V>(m: &KindMap<V>, kind: TransactionKind)
    requires
        m.wf(),
        m@.contains_key(kind),
    ensures
        exists|i: int|
            0 <= i < m.entries_seq().len() && (#[trigger] m.entries_seq()[i]).0 == kind
                && m.entries_seq()[i].1 == m@[kind],
{
    lemma_map_of_contains(m.entries_seq(), kind);
    let i = choose|i: int|
        0 <= i < m.entries_seq().len() && (#[trigger] m.entries_seq()[i]).0 == kind;
    lemma_map_of_index(m.entries_seq(), i);
}

/// Registering under one kind twice leaves the map exactly as if only the
/// second registration had happened: the kind is present, bound to the later
/// value, and no other kind is disturbed.
pub proof fn law_register_idempotent<V>(
    m: Map<TransactionKind, V>,
    kind: TransactionKind,
    v1: V,
    v2: V,
)
    ensures
        m.insert(kind, v1).insert(kind, v2) == m.insert(kind, v2),
        m.insert(kind, v1).contains_key(kind) && m.insert(kind, v1)[kind] == v1,
{
    assert(m.insert(kind, v1).insert(kind, v2) =~= m.insert(kind, v2));
}

/// A kind is in the map of an entry sequence exactly when some entry carries it.
proof fn lemma_map_of_contains<V>(entries: Seq<(TransactionKind, V)>, kind: TransactionKind)
    ensures
        map_of(entries).contains_key(kind) <==> exists|i: int|
            0 <= i < entries.len() && (#[trigger] entries[i]).0 == kind,
    decreases entries.len(),
{
    if entries.len() > 0 {
        lemma_map_of_contains(entries.drop_last(), kind);
        if entries.last().0 == kind {
            assert((entries[entries.len() - 1]).0 == kind);
        } else if map_of(entries).contains_key(kind) {
            let i = choose|i: int|
                0 <= i < entries.drop_last().len() && (#[trigger] entries.drop_last()[i]).0
                    == kind;
            assert((entries[i]).0 == kind);
        } else {
            assert forall|i: int| 0 <= i < entries.len() implies (#[trigger] entries[i]).0
                != kind by {
                if i < entries.len() - 1 {
                    assert(entries.drop_last()[i] == entries[i]);
                }
            }
        }
    }
}

/// A kind carried by no entry is not in the map.
proof fn lemma_map_of_absent<V>(entries: Seq<(TransactionKind, V)>, kind: TransactionKind)
    requires
        forall|i: int| 0 <= i < entries.len() ==> (#[trigger] entries[i]).0 != kind,
    ensures
        !map_of(entries).contains_key(kind),
{
    lemma_map_of_contains(entries, kind);
}

/// In a duplicate-free entry sequence, the map sends the kind of entry `i`
/// to that entry's value.
proof fn lemma_map_of_index<V>(entries: Seq<(TransactionKind, V)>, i: int)
    requires
        0 <= i < entries.len(),
        forall|p: int, q: int|
            0 <= p < q < entries.len() ==> (#[trigger] entries[p]).0 != (#[trigger] entries[q]).0,
    ensures
        map_of(entries).contains_key(entries[i].0),
        map_of(entries)[entries[i].0] == entries[i].1,
    decreases entries.len(),
{
    if i == entries.len() - 1 {
    } else {
        assert(entries.drop_last()[i] == entries[i]);
        lemma_map_of_index(entries.drop_last(), i);
        assert(entries.last().0 != entries[i].0);
    }
}

/// Replacing the value of entry `i` (which carries `kind`) updates the map
/// at `kind` alone.
proof fn lemma_map_of_update<V>(
    entries: Seq<(TransactionKind, V)>,
    i: int,
    kind: TransactionKind,
    value: V,
)
    requires
        0 <= i < entries.len(),
        entries[i].0 == kind,
        forall|p: int, q: int|
            0 <= p < q < entries.len() ==> (#[trigger] entries[p]).0 != (#[trigger] entries[q]).0,
    ensures
        map_of(entries.update(i, (kind, value))) == map_of(entries).insert(kind, value),
        forall|p: int, q: int|
            0 <= p < q < entries.update(i, (kind, value)).len() ==> (#[trigger] entries.update(
                i,
                (kind, value),
            )[p]).0 != (#[trigger] entries.update(i, (kind, value))[q]).0,
    decreases entries.len(),
{
    let updated = entries.update(i, (kind, value));
    assert forall|p: int, q: int| 0 <= p < q < updated.len() implies (#[trigger] updated[p]).0 != (
    #[trigger] updated[q]).0 by {
        assert(updated[p].0 == entries[p].0);
        assert(updated[q].0 == entries[q].0);
    }
    if i == entries.len() - 1 {
        assert(updated.drop_last() =~= entries.drop_last());
        assert(map_of(entries).insert(kind, value) =~= map_of(entries.drop_last()).insert(
            kind,
            value,
        ));
    } else {
        assert(updated.drop_last() =~= entries.drop_last().update(i, (kind, value)));
        assert(updated.last() == entries.last());
        lemma_map_of_update(entries.drop_last(), i, kind, value);
        assert(entries.drop_last()[i] == entries[i]);
        assert(entries.last().0 != kind);
        assert(map_of(updated) =~= map_of(entries).insert(kind, value));
    }
}

/// The count of a kind in a sequence none of whose entries carries it.
proof fn lemma_count_absent<V>(entries: Seq<(TransactionKind, V)>, kind: TransactionKind)
    requires
        forall|i: int| 0 <= i < entries.len() ==> (#[trigger] entries[i]).0 != kind,
    ensures
        count_kind(entries, kind) == 0,
    decreases entries.len(),
{
    if entries.len() > 0 {
        assert forall|i: int| 0 <= i < entries.drop_last().len() implies (
        #[trigger] entries.drop_last()[i]).0 != kind by {
            assert(entries.drop_last()[i] == entries[i]);
        }
        lemma_count_absent(entries.drop_last(), kind);
        assert((entries[entries.len() - 1]).0 != kind);
    }
}

/// Replacing an entry's value leaves the count of its kind unchanged.
proof fn lemma_count_update<V>(
    entries: Seq<(TransactionKind, V)>,
    i: int,
    kind: TransactionKind,
    value: V,
)
    requires
        0 <= i < entries.len(),
        entries[i].0 == kind,
    ensures
        count_kind(entries.update(i, (kind, value)), kind) == count_kind(entries, kind),
    decreases entries.len(),
{
    let updated = entries.update(i, (kind, value));
    if i == entries.len() - 1 {
        assert(updated.drop_last() =~= entries.drop_last());
    } else {
        assert(updated.drop_last() =~= entries.drop_last().update(i, (kind, value)));
        assert(entries.drop_last()[i] == entries[i]);
        lemma_count_update(entries.drop_last(), i, kind, value);
        assert(updated.last() == entries.last());
    }
}

/// In a duplicate-free entry sequence, a kind that some entry carries is
/// counted exactly once.
proof fn lemma_wf_count<V>(entries: Seq<(TransactionKind, V)>, kind: TransactionKind)
    requires
        forall|p: int, q: int|
            0 <= p < q < entries.len() ==> (#[trigger] entries[p]).0 != (#[trigger] entries[q]).0,
        exists|i: int| 0 <= i < entries.len() && (#[trigger] entries[i]).0 == kind,
    ensures
        count_kind(entries, kind) == 1,
    decreases entries.len(),
{
    let i = choose|i: int| 0 <= i < entries.len() && (#[trigger] entries[i]).0 == kind;
    if i == entries.len() - 1 {
        assert forall|j: int| 0 <= j < entries.drop_last().len() implies (
        #[trigger] entries.drop_last()[j]).0 != kind by {
            assert(entries.drop_last()[j] == entries[j]);
        }
        lemma_count_absent(entries.drop_last(), kind);
    } else {
        assert(entries.drop_last()[i] == entries[i]);
        lemma_wf_count(entries.drop_last(), kind);
        assert((entries[entries.len() - 1]).0 != kind);
    }
}

/// A duplicate-free entry sequence and its map have the same size.
proof fn lemma_map_of_dom_len<V>(entries: Seq<(TransactionKind, V)>)
    requires
        forall|p: int, q: int|
            0 <= p < q < entries.len() ==> (#[trigger] entries[p]).0 != (#[trigger] entries[q]).0,
    ensures
        map_of(entries).dom().len() == entries.len(),
        map_of(entries).dom().finite(),
    decreases entries.len(),
{
    if entries.len() > 0 {
        lemma_map_of_dom_len(entries.drop_last());
        lemma_map_of_absent(entries.drop_last(), entries.last().0);
        assert(map_of(entries).dom() =~= map_of(entries.drop_last()).dom().insert(
            entries.last().0,
        ));
        vstd::set::axiom_set_insert_len(map_of(entries.drop_last()).dom(), entries.last().0);
    }
}

} // verus!
