//! Run configuration: the mode, the engine's options, and the parser for
//! the per-kind interval override table.
//!
//! The override table arrives as a JSON object mapping kind names to
//! human-readable durations (`{"mpc-sign-ecdsa": "5m", "swap": "10m"}`).
//! The JSON and duration grammars are handled by outside crates; which
//! entries are accepted, in which order faults are reported, and what map
//! comes out is this module's verified logic.
use vstd::prelude::*;

use crate::kind_map::KindMap;
use crate::kinds::{lemma_kind_names_injective, spec_kind_name, TransactionKind};

verus! {

/// What the harness is asked to do.
#[derive(Clone, Copy, Debug, PartialEq, Eq, Structural)]
pub enum Mode {
    /// Display the available transaction kinds.
    List,
    /// Run selected transactions continuously.
    Run,
}

/// The engine's options, as plain values: the accounts and endpoint as
/// strings, the periods in milliseconds, and the optional per-kind period
/// override table.
#[derive(Debug)]
pub struct Opts {
    /// Mode.
    pub mode: Mode,
    /// RPC endpoint.
    pub rpc_url: String,
    /// Signer account id.
    pub signer_id: String,
    /// Receiver account id.
    pub receiver_id: String,
    /// Wrapped-token account id, used for swaps.
    pub wrap_near_id: String,
    /// Fungible-token account id, used for swaps and token transfers.
    pub ft_account_id: String,
    /// Exchange account id, used for swaps.
    pub exchange_id: String,
    /// Contract account for the threshold-signing calls.
    pub mpc_contract_id: String,
    /// Pool id for the swap call.
    pub pool_id: u32,
    /// The kinds to run; empty selects every registered kind.
    pub transaction_kind: Vec<TransactionKind>,
    /// How many times each kind runs in every round.
    pub repeats_number: usize,
    /// Time between benchmarking rounds.
    pub period_ms: u128,
    /// Delay between the starts of sibling interval groups.
    pub group_delay_ms: u128,
    /// Per-kind period overrides, if configured.
    pub interval_overwrite: Option<KindMap<u128>>,
    /// Address the metric server listens on.
    pub metric_server_address: String,
    /// Geographical location label.
    pub location: String,
}

/// What a JSON document holds when it is an object whose values are read
/// as strings: each key with its value, a non-string value read as none —
/// in the order the parser reports them; or nothing, when the document is
/// not a JSON object.
pub uninterp spec fn json_object_string_entries(s: Seq<char>) -> Option<
    Seq<(Seq<char>, Option<Seq<char>>)>,
>;

/// The view of an optional string.
pub open spec fn spec_opt_view(o: Option<String>) -> Option<Seq<char>> {
    match o {
        Some(s) => Some(s@),
        None => None,
    }
}

/// Parses a JSON document and reads it as an object of string values.
///
/// Relies on `serde_json::from_str`, `Value::as_object` and
/// `Value::as_str`: parsing is a function of the document alone, an object
/// yields its entries in a fixed order, and `as_str` answers exactly for
/// string values.
#[verifier::external_body]
fn parse_json_string_object(s: &str) -> (r: Option<Vec<(String, Option<String>)>>)
    ensures
        match r {
            Some(v) => json_object_string_entries(s@) == Some(
                v@.map_values(|p: (String, Option<String>)| (p.0@, spec_opt_view(p.1))),
            ),
            None => json_object_string_entries(s@) is None,
        },
{
    let value: serde_json::Value = serde_json::from_str(s).ok()?;
    let object = value.as_object()?;
    Some(
        object.iter().map(
            |(key, val)| (key.clone(), val.as_str().map(|x| x.to_string())),
        ).collect(),
    )
}

/// What a human-readable duration string denotes, in milliseconds; or
/// nothing, when it does not parse.
pub uninterp spec fn parsed_duration_millis(s: Seq<char>) -> Option<u128>;

/// Parses a human-readable duration (`"5m"`, `"90s"`) into milliseconds.
///
/// Relies on `humantime::parse_duration`: the parse is a function of the
/// string alone.
#[verifier::external_body]
fn parse_duration_millis(s: &str) -> (r: Option<u128>)
    ensures
        r == parsed_duration_millis(s@),
{
    humantime::parse_duration(s).ok().map(|d| d.as_millis())
}

/// Why the override table was rejected, each variant carrying the key of
/// the offending entry.
#[derive(Clone, Debug)]
pub enum IntervalParseError {
    /// The text is not a JSON object.
    NotAJsonObject,
    /// A key names no known transaction kind.
    UnknownTransactionKind(String),
    /// An entry's value is not a string.
    ValueNotAString(String),
    /// An entry's value is not a parsable duration.
    InvalidDuration(String),
}

/// How one override entry can fail.
#[derive(Clone, Copy, Debug, PartialEq, Eq, Structural)]
pub enum EntryFault {
    UnknownKind,
    NotAString,
    BadDuration,
}

/// Some kind bears this name.
pub open spec fn spec_known_kind(name: Seq<char>) -> bool {
    exists|k: TransactionKind| spec_kind_name(k) == name
}

/// The kind bearing this name.
pub open spec fn spec_kind_of(name: Seq<char>) -> TransactionKind {
    choose|k: TransactionKind| spec_kind_name(k) == name
}

/// The first reason an override entry is rejected: an unknown kind name,
/// then a non-string value, then an unparsable duration.
pub open spec fn spec_entry_fault(entry: (Seq<char>, Option<Seq<char>>)) -> Option<EntryFault> {
    if !spec_known_kind(entry.0) {
        Some(EntryFault::UnknownKind)
    } else if entry.1 is None {
        Some(EntryFault::NotAString)
    } else if parsed_duration_millis(entry.1->0) is None {
        Some(EntryFault::BadDuration)
    } else {
        None
    }
}

/// The index of the first rejected entry, if any.
pub open spec fn spec_first_fault(entries: Seq<(Seq<char>, Option<Seq<char>>)>) -> Option<int>
    decreases entries.len(),
{
    if entries.len() == 0 {
        None
    } else if spec_entry_fault(entries[0]) is Some {
        Some(0)
    } else {
        match spec_first_fault(entries.drop_first()) {
            None => None,
            Some(i) => Some(i + 1),
        }
    }
}

/// The override map a fault-free entry sequence denotes; a repeated kind
/// keeps its last entry.
pub open spec fn spec_overwrite_map(entries: Seq<(Seq<char>, Option<Seq<char>>)>) -> Map<
    TransactionKind,
    u128,
>
    decreases entries.len(),
{
    if entries.len() == 0 {
        Map::empty()
    } else {
        spec_overwrite_map(entries.drop_last()).insert(
            spec_kind_of(entries.last().0),
            parsed_duration_millis(entries.last().1->0)->0,
        )
    }
}

/// The character-level view of a key/value entry list, as the fault and
/// map functions read it.
pub open spec fn spec_entries_view(entries: Seq<(String, Option<String>)>) -> Seq<
    (Seq<char>, Option<Seq<char>>),
> {
    entries.map_values(|p: (String, Option<String>)| (p.0@, spec_opt_view(p.1)))
}

/// Parses the override table: the text must be a JSON object; each key
/// must name a kind and each value must be a duration string. The first
/// offending entry decides the error; otherwise the table becomes a map
/// from kind to period, later entries winning over earlier ones.
pub fn parse_interval_overwrite(s: &str) -> (r: Result<KindMap<u128>, IntervalParseError>)
    ensures
        match json_object_string_entries(s@) {
            None => r matches Err(IntervalParseError::NotAJsonObject),
            Some(entries) => match spec_first_fault(entries) {
                Some(b) => match r {
                    Err(IntervalParseError::UnknownTransactionKind(key)) => spec_entry_fault(
                        entries[b],
                    ) == Some(EntryFault::UnknownKind) && key@ == entries[b].0,
                    Err(IntervalParseError::ValueNotAString(key)) => spec_entry_fault(entries[b])
                        == Some(EntryFault::NotAString) && key@ == entries[b].0,
                    Err(IntervalParseError::InvalidDuration(key)) => spec_entry_fault(entries[b])
                        == Some(EntryFault::BadDuration) && key@ == entries[b].0,
                    _ => false,
                },
                None => match r {
                    Ok(m) => m.wf() && m@ == spec_overwrite_map(entries),
                    Err(_) => false,
                },
            },
        },
{
    let entries = match parse_json_string_object(s) {
        None => {
            return Err(IntervalParseError::NotAJsonObject);
        },
        Some(v) => v,
    };
    proof {
        assert(json_object_string_entries(s@) == Some(spec_entries_view(entries@)));
    }
    build_interval_overwrite(&entries)
}

/// Builds the override map from the entries a JSON object yielded: each
/// key must name a kind and each value must be a duration string. The
/// first offending entry decides the error; otherwise each entry binds its
/// kind to its period, later entries winning over earlier ones.
pub fn build_interval_overwrite(entries: &Vec<(String, Option<String>)>) -> (r: Result<
    KindMap<u128>,
    IntervalParseError,
>)
    ensures
        match spec_first_fault(spec_entries_view(entries@)) {
            Some(b) => match r {
                Err(IntervalParseError::UnknownTransactionKind(key)) => spec_entry_fault(
                    spec_entries_view(entries@)[b],
                ) == Some(EntryFault::UnknownKind) && key@ == spec_entries_view(entries@)[b].0,
                Err(IntervalParseError::ValueNotAString(key)) => spec_entry_fault(
                    spec_entries_view(entries@)[b],
                ) == Some(EntryFault::NotAString) && key@ == spec_entries_view(entries@)[b].0,
                Err(IntervalParseError::InvalidDuration(key)) => spec_entry_fault(
                    spec_entries_view(entries@)[b],
                ) == Some(EntryFault::BadDuration) && key@ == spec_entries_view(entries@)[b].0,
                _ => false,
            },
            None => match r {
                Ok(m) => m.wf() && m@ == spec_overwrite_map(spec_entries_view(entries@)),
                Err(_) => false,
            },
        },
{
    let ghost ges = spec_entries_view(entries@);
    let mut result: KindMap<u128> = KindMap::new();
    let mut i: usize = 0;
    while i < entries.len()
        invariant
            ges == spec_entries_view(entries@),
            i <= entries@.len(),
            ges.len() == entries@.len(),
            forall|j: int| 0 <= j < i ==> spec_entry_fault(#[trigger] ges[j]) is None,
            result.wf(),
            result@ == spec_overwrite_map(ges.take(i as int)),
        decreases entries@.len() - i,
    {
        proof {
            assert(ges[i as int] == (entries@[i as int].0@, spec_opt_view(entries@[i as int].1)));
        }
        let key = &entries[i].0;
        let kind = match TransactionKind::from_str(key.as_str()) {
            Some(k) => k,
            None => {
                proof {
                    assert(!spec_known_kind(ges[i as int].0)) by {
                        if spec_known_kind(ges[i as int].0) {
                            let k = choose|k: TransactionKind| spec_kind_name(k)
                                == ges[i as int].0;
                            assert(key@ != spec_kind_name(k));
                        }
                    }
                    assert(spec_entry_fault(ges[i as int]) == Some(EntryFault::UnknownKind));
                    lemma_first_fault_at(ges, i as int);
                }
                return Err(IntervalParseError::UnknownTransactionKind(key.clone()));
            },
        };
        let millis = match &entries[i].1 {
            None => {
                proof {
                    assert(spec_known_kind(ges[i as int].0)) by {
                        assert(spec_kind_name(kind) == ges[i as int].0);
                    }
                    assert(spec_entry_fault(ges[i as int]) == Some(EntryFault::NotAString));
                    lemma_first_fault_at(ges, i as int);
                }
                return Err(IntervalParseError::ValueNotAString(key.clone()));
            },
            Some(value) => match parse_duration_millis(value.as_str()) {
                None => {
                    proof {
                        assert(spec_known_kind(ges[i as int].0)) by {
                            assert(spec_kind_name(kind) == ges[i as int].0);
                        }
                        assert(ges[i as int].1 == Some(value@));
                        assert(spec_entry_fault(ges[i as int]) == Some(EntryFault::BadDuration));
                        lemma_first_fault_at(ges, i as int);
                    }
                    return Err(IntervalParseError::InvalidDuration(key.clone()));
                },
                Some(m) => m,
            },
        };
        result.insert(kind, millis);
        proof {
            assert(spec_known_kind(ges[i as int].0)) by {
                assert(spec_kind_name(kind) == ges[i as int].0);
            }
            assert(spec_entry_fault(ges[i as int]) is None);
            assert(spec_kind_name(kind) == ges[i as int].0);
            lemma_kind_names_injective(spec_kind_of(ges[i as int].0), kind);
            assert(ges.take(i + 1).drop_last() =~= ges.take(i as int));
            assert(ges.take(i + 1).last() == ges[i as int]);
        }
        i += 1;
    }
    proof {
        lemma_first_fault_none(ges);
        assert(ges.take(ges.len() as int) =~= ges);
    }
    Ok(result)
}

/// If the first `b` entries are fault-free and entry `b` is not, the first
/// fault is at `b`.
proof fn lemma_first_fault_at(entries: Seq<(Seq<char>, Option<Seq<char>>)>, b: int)
    requires
        0 <= b < entries.len(),
        forall|j: int| 0 <= j < b ==> spec_entry_fault(#[trigger] entries[j]) is None,
        spec_entry_fault(entries[b]) is Some,
    ensures
        spec_first_fault(entries) == Some(b),
    decreases b,
{
    if b > 0 {
        assert(spec_entry_fault(entries[0]) is None);
        assert forall|j: int| 0 <= j < b - 1 implies spec_entry_fault(
            #[trigger] entries.drop_first()[j],
        ) is None by {
            assert(entries.drop_first()[j] == entries[j + 1]);
        }
        assert(entries.drop_first()[b - 1] == entries[b]);
        lemma_first_fault_at(entries.drop_first(), b - 1);
    }
}

/// If no entry is rejected, there is no first fault.
proof fn lemma_first_fault_none(entries: Seq<(Seq<char>, Option<Seq<char>>)>)
    requires
        forall|j: int| 0 <= j < entries.len() ==> spec_entry_fault(#[trigger] entries[j]) is None,
    ensures
        spec_first_fault(entries) is None,
    decreases entries.len(),
{
    if entries.len() > 0 {
        assert forall|j: int| 0 <= j < entries.drop_first().len() implies spec_entry_fault(
            #[trigger] entries.drop_first()[j],
        ) is None by {
            assert(entries.drop_first()[j] == entries[j + 1]);
        }
        lemma_first_fault_none(entries.drop_first());
    }
}

} // verus!
