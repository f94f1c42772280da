//! Planning one benchmarking round: which kinds run, under which labels,
//! and which nonce every execution slot gets.
use vstd::prelude::*;

use crate::kinds::TransactionKind;
use crate::nonce::{allocate_nonce, spec_allocate_nonce};
use crate::strutil::{contains_seq, str_contains};

verus! {

/// The default bound on the random jitter added to a slot's nonce.
pub const DEFAULT_JITTER_BOUND: u64 = 1000;

/// The network label derived from the RPC endpoint: the first known
/// substring wins, and an unrecognized endpoint is labelled `localnet`.
pub open spec fn spec_network_of(url: Seq<char>) -> Seq<char> {
    if contains_seq(url, "mainnet"@) {
        "mainnet"@
    } else if contains_seq(url, "testnet"@) {
        "testnet"@
    } else if contains_seq(url, "statelessnet"@) {
        "statelessnet"@
    } else {
        "localnet"@
    }
}

/// Derives the network label from the RPC endpoint string.
pub fn network_of(rpc_url: &str) -> (r: String)
    ensures
        r@ == spec_network_of(rpc_url@),
{
    if str_contains(rpc_url, "mainnet") {
        String::from_str("mainnet")
    } else if str_contains(rpc_url, "testnet") {
        String::from_str("testnet")
    } else if str_contains(rpc_url, "statelessnet") {
        String::from_str("statelessnet")
    } else {
        String::from_str("localnet")
    }
}

/// Whether the endpoint is the fake one used for dry runs, which answers
/// every round with a zero base nonce instead of being queried.
pub fn is_fake_endpoint(rpc_url: &str) -> (r: bool)
    ensures
        r == contains_seq(rpc_url@, "fake"@),
{
    str_contains(rpc_url, "fake")
}

/// Whether the vector holds the kind.
pub fn contains_kind(v: &Vec<TransactionKind>, kind: TransactionKind) -> (r: bool)
    ensures
        r == v@.contains(kind),
{
    let mut i: usize = 0;
    while i < v.len()
        invariant
            i <= v@.len(),
            forall|j: int| 0 <= j < i ==> v@[j] != kind,
        decreases v@.len() - i,
    {
        if v[i] == kind {
            return true;
        }
        i += 1;
    }
    false
}

/// The kinds a round runs: all of them when no selection is configured,
/// otherwise only the selected ones, in catalog order.
pub open spec fn spec_selected_kinds(
    kinds: Seq<TransactionKind>,
    selection: Seq<TransactionKind>,
) -> Seq<TransactionKind> {
    if selection.len() == 0 {
        kinds
    } else {
        kinds.filter(|k: TransactionKind| selection.contains(k))
    }
}

/// Filters the catalog's kinds down to the configured selection; an empty
/// selection selects everything.
pub fn select_kinds(kinds: &Vec<TransactionKind>, selection: &Vec<TransactionKind>) -> (r: Vec<
    TransactionKind,
>)
    ensures
        r@ == spec_selected_kinds(kinds@, selection@),
{
    if selection.len() == 0 {
        return kinds.clone();
    }
    let mut r: Vec<TransactionKind> = Vec::new();
    let mut i: usize = 0;
    while i < kinds.len()
        invariant
            i <= kinds@.len(),
            selection@.len() > 0,
            r@ == kinds@.take(i as int).filter(|k: TransactionKind| selection@.contains(k)),
        decreases kinds@.len() - i,
    {
        proof {
            assert(kinds@.take(i + 1) =~= kinds@.take(i as int) + seq![kinds@[i as int]]);
            Seq::<TransactionKind>::filter_distributes_over_add(
                kinds@.take(i as int),
                seq![kinds@[i as int]],
                |k: TransactionKind| selection@.contains(k),
            );
            reveal_with_fuel(Seq::filter, 2);
            assert(seq![kinds@[i as int]].drop_last() =~= Seq::<TransactionKind>::empty());
        }
        if contains_kind(selection, kinds[i]) {
            r.push(kinds[i]);
        }
        i += 1;
    }
    proof {
        assert(kinds@.take(kinds@.len() as int) =~= kinds@);
    }
    r
}

/// One execution slot of a round: the kind to run, where it stands in the
/// round, and the nonce allocated to it.
#[derive(Clone, Copy, Debug)]
pub struct ExecutionSlot {
    pub kind: TransactionKind,
    pub kind_index: usize,
    pub repeat_index: usize,
    pub nonce: u64,
}

/// The slots lay one round out over `kinds`: one slot per kind × repeat
/// pair, in kind order then repeat order; the slot at position
/// `p = kind_index * repeats + repeat_index` runs its kind with nonce
/// `base + p + 1 + jitter` for some jitter of at most `jitter_bound`, and
/// every nonce is strictly above the base.
pub open spec fn spec_round_planned(
    slots: Seq<ExecutionSlot>,
    kinds: Seq<TransactionKind>,
    repeats: int,
    base_nonce: u64,
    jitter_bound: u64,
) -> bool {
    &&& slots.len() == kinds.len() * repeats
    &&& forall|ki: int, ri: int|
        0 <= ki < kinds.len() && 0 <= ri < repeats ==> {
            let slot = #[trigger] slots[ki * repeats + ri];
            &&& slot.kind == kinds[ki]
            &&& slot.kind_index == ki
            &&& slot.repeat_index == ri
            &&& exists|j: u64|
                0 <= j <= jitter_bound && slot.nonce == #[trigger] spec_allocate_nonce(
                    base_nonce,
                    (ki * repeats + ri) as u64,
                    j,
                )
            &&& slot.nonce > base_nonce || base_nonce == u64::MAX
        }
}

/// Lays out one round: every kind × repeat pair becomes one slot, in kind
/// order then repeat order, with slot position `p = kind_index * repeats +
/// repeat_index` and nonce `base + p + 1 + jitter` for a fresh random
/// jitter of at most `jitter_bound`.
pub fn plan_round(
    kinds: &Vec<TransactionKind>,
    repeats: usize,
    base_nonce: u64,
    jitter_bound: u64,
) -> (slots: Vec<ExecutionSlot>)
    requires
        kinds@.len() * repeats <= usize::MAX,
        kinds@.len() * repeats + 1 + jitter_bound <= u64::MAX,
    ensures
        spec_round_planned(slots@, kinds@, repeats as int, base_nonce, jitter_bound),
{
    let n = kinds.len();
    let mut slots: Vec<ExecutionSlot> = Vec::new();
    let mut ki: usize = 0;
    while ki < n
        invariant
            n == kinds@.len(),
            ki <= n,
            n * repeats <= usize::MAX,
            n * repeats + 1 + jitter_bound <= u64::MAX,
            slots@.len() == ki * repeats,
            forall|ki2: int, ri2: int|
                0 <= ki2 < ki && 0 <= ri2 < repeats ==> {
                    let slot = #[trigger] slots@[ki2 * repeats + ri2];
                    &&& slot.kind == kinds@[ki2]
                    &&& slot.kind_index == ki2
                    &&& slot.repeat_index == ri2
                    &&& exists|j: u64|
                        0 <= j <= jitter_bound && slot.nonce == #[trigger] spec_allocate_nonce(
                            base_nonce,
                            (ki2 * repeats + ri2) as u64,
                            j,
                        )
                    &&& slot.nonce > base_nonce || base_nonce == u64::MAX
                },
        decreases n - ki,
    {
        proof {
            assert(ki * repeats + repeats <= n * repeats) by (nonlinear_arith)
                requires
                    ki < n,
                    0 <= repeats,
            ;
        }
        let mut ri: usize = 0;
        while ri < repeats
            invariant
                n == kinds@.len(),
                ki < n,
                ri <= repeats,
                n * repeats <= usize::MAX,
                n * repeats + 1 + jitter_bound <= u64::MAX,
                ki * repeats + repeats <= n * repeats,
                slots@.len() == ki * repeats + ri,
                forall|ki2: int, ri2: int|
                    0 <= ki2 < ki && 0 <= ri2 < repeats ==> {
                        let slot = #[trigger] slots@[ki2 * repeats + ri2];
                        &&& slot.kind == kinds@[ki2]
                        &&& slot.kind_index == ki2
                        &&& slot.repeat_index == ri2
                        &&& exists|j: u64|
                            0 <= j <= jitter_bound && slot.nonce == #[trigger] spec_allocate_nonce(
                                base_nonce,
                                (ki2 * repeats + ri2) as u64,
                                j,
                            )
                        &&& slot.nonce > base_nonce || base_nonce == u64::MAX
                    },
                forall|ri2: int|
                    0 <= ri2 < ri ==> {
                        let slot = #[trigger] slots@[ki * repeats + ri2];
                        &&& slot.kind == kinds@[ki as int]
                        &&& slot.kind_index == ki
                        &&& slot.repeat_index == ri2
                        &&& exists|j: u64|
                            0 <= j <= jitter_bound && slot.nonce == #[trigger] spec_allocate_nonce(
                                base_nonce,
                                (ki * repeats + ri2) as u64,
                                j,
                            )
                        &&& slot.nonce > base_nonce || base_nonce == u64::MAX
                    },
            decreases repeats - ri,
        {
            let p: usize = ki * repeats + ri;
            let jitter = random_jitter(jitter_bound);
            let nonce = allocate_nonce(base_nonce, p as u64, jitter);
            let ghost prev = slots@;
            slots.push(ExecutionSlot { kind: kinds[ki], kind_index: ki, repeat_index: ri, nonce });
            proof {
                assert forall|ki2: int, ri2: int|
                    0 <= ki2 < ki && 0 <= ri2 < repeats implies #[trigger] slots@[ki2 * repeats
                    + ri2] == prev[ki2 * repeats + ri2] by {
                    assert(ki2 * repeats + ri2 < ki * repeats) by (nonlinear_arith)
                        requires
                            0 <= ki2 < ki,
                            0 <= ri2 < repeats,
                    ;
                }
                assert forall|ri2: int| 0 <= ri2 < ri implies #[trigger] slots@[ki * repeats
                    + ri2] == prev[ki * repeats + ri2] by {}
                let slot = slots@[ki * repeats + ri];
                assert(slot == ExecutionSlot { kind: kinds@[ki as int], kind_index: ki, repeat_index: ri, nonce });
                assert(slot.nonce == spec_allocate_nonce(base_nonce, (ki * repeats + ri) as u64, jitter));
                assert(0 <= jitter <= jitter_bound);
            }
            ri += 1;
        }
        ki += 1;
        proof {
            assert(ki * repeats == (ki - 1) * repeats + repeats) by (nonlinear_arith);
            assert forall|ki2: int, ri2: int|
                0 <= ki2 < ki && 0 <= ri2 < repeats implies {
                let slot = #[trigger] slots@[ki2 * repeats + ri2];
                &&& slot.kind == kinds@[ki2]
                &&& slot.kind_index == ki2
                &&& slot.repeat_index == ri2
                &&& exists|j: u64|
                    0 <= j <= jitter_bound && slot.nonce == #[trigger] spec_allocate_nonce(
                        base_nonce,
                        (ki2 * repeats + ri2) as u64,
                        j,
                    )
                &&& slot.nonce > base_nonce || base_nonce == u64::MAX
            } by {
                if ki2 < ki - 1 {
                } else {
                    assert(ki2 == ki - 1);
                }
            }
        }
    }
    proof {
        assert(ki == n);
    }
    slots
}

/// Plans one round for a group: filters the group's kinds down to the
/// configured selection, then lays the slots out, one per kind × repeat.
/// Returns nothing only when the slot count or the nonce offsets would
/// leave the machine's range — such a round is skipped, never mangled.
pub fn plan_selected_round(
    kinds: &Vec<TransactionKind>,
    selection: &Vec<TransactionKind>,
    repeats: usize,
    base_nonce: u64,
    jitter_bound: u64,
) -> (r: Option<Vec<ExecutionSlot>>)
    ensures
        ({
            let sel = spec_selected_kinds(kinds@, selection@);
            match r {
                Some(slots) => spec_round_planned(
                    slots@,
                    sel,
                    repeats as int,
                    base_nonce,
                    jitter_bound,
                ),
                None => sel.len() * repeats > usize::MAX || sel.len() * repeats + 1
                    + jitter_bound > u64::MAX,
            }
        }),
{
    let selected = select_kinds(kinds, selection);
    let n = match selected.len().checked_mul(repeats) {
        Some(n) => n,
        None => {
            return None;
        },
    };
    if jitter_bound > u64::MAX - 1 || (n as u64) > u64::MAX - 1 - jitter_bound {
        return None;
    }
    Some(plan_round(&selected, repeats, base_nonce, jitter_bound))
}

/// Draws the random jitter added to a slot's nonce, uniformly from
/// `[0, bound]`.
///
/// Relies on `rand::random_range`: the result lies within the given range.
#[verifier::external_body]
fn random_jitter(bound: u64) -> (r: u64)
    ensures
        0 <= r <= bound,
{
    rand::random_range(0..=bound)
}

} // verus!
