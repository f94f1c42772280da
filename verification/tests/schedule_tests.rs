use transaction_bench::kind_map::KindMap;
use transaction_bench::schedule::{group_start_delay_ms, partition_groups};
use transaction_bench::TransactionKind;

const FIVE_MINUTES_MS: u128 = 300_000;
const TEN_MINUTES_MS: u128 = 600_000;
const FIFTEEN_MINUTES_MS: u128 = 900_000;

#[test]
fn override_and_default_form_two_staggered_groups() {
    // Override {A: 5m}, default period 15m, kinds {A, B}: the groups are
    // {5m: [A]} and {15m: [B]}; A's group starts immediately, B's after
    // one stagger delay.
    let kind_a = TransactionKind::MpcSignEcdsa;
    let kind_b = TransactionKind::Swap;
    let all_kinds = vec![kind_a, kind_b];
    let mut overrides: KindMap<u128> = KindMap::new();
    overrides.insert(kind_a, FIVE_MINUTES_MS);

    let groups = partition_groups(&all_kinds, &overrides, FIFTEEN_MINUTES_MS);

    assert_eq!(groups.len(), 2);
    assert_eq!(groups[0].period_ms, FIVE_MINUTES_MS);
    assert_eq!(groups[0].kinds, vec![kind_a]);
    assert_eq!(groups[1].period_ms, FIFTEEN_MINUTES_MS);
    assert_eq!(groups[1].kinds, vec![kind_b]);

    let stagger = 6_000u128;
    assert_eq!(group_start_delay_ms(0, stagger), 0);
    assert_eq!(group_start_delay_ms(1, stagger), stagger);
    assert_eq!(group_start_delay_ms(2, stagger), 2 * stagger);
}

#[test]
fn partition_covers_every_kind_exactly_once() {
    let all_kinds = vec![
        TransactionKind::TokenTransferDefault,
        TransactionKind::TokenTransferFinal,
        TransactionKind::Swap,
        TransactionKind::MpcSignEcdsa,
    ];
    let mut overrides: KindMap<u128> = KindMap::new();
    overrides.insert(TransactionKind::Swap, FIVE_MINUTES_MS);
    overrides.insert(TransactionKind::MpcSignEcdsa, TEN_MINUTES_MS);

    let groups = partition_groups(&all_kinds, &overrides, FIFTEEN_MINUTES_MS);

    // Every kind appears in exactly one group.
    for kind in &all_kinds {
        let mut appearances = 0;
        for group in &groups {
            appearances += group.kinds.iter().filter(|k| *k == kind).count();
        }
        assert_eq!(appearances, 1, "kind {:?} must land in exactly one group", kind);
    }
    // No two groups share a period.
    for i in 0..groups.len() {
        for j in 0..groups.len() {
            if i != j {
                assert_ne!(groups[i].period_ms, groups[j].period_ms);
            }
        }
    }
    // An overridden kind never also appears in the default-period group.
    let default_group = groups
        .iter()
        .find(|g| g.period_ms == FIFTEEN_MINUTES_MS)
        .expect("the unmapped kinds form a default-period group");
    assert!(!default_group.kinds.contains(&TransactionKind::Swap));
    assert!(!default_group.kinds.contains(&TransactionKind::MpcSignEcdsa));
    assert_eq!(
        default_group.kinds,
        vec![TransactionKind::TokenTransferDefault, TransactionKind::TokenTransferFinal]
    );
}

#[test]
fn kinds_sharing_an_override_period_share_a_group() {
    let all_kinds = vec![TransactionKind::Swap, TransactionKind::MpcSignEddsa];
    let mut overrides: KindMap<u128> = KindMap::new();
    overrides.insert(TransactionKind::Swap, FIVE_MINUTES_MS);
    overrides.insert(TransactionKind::MpcSignEddsa, FIVE_MINUTES_MS);

    let groups = partition_groups(&all_kinds, &overrides, FIFTEEN_MINUTES_MS);
    assert_eq!(groups.len(), 1);
    assert_eq!(groups[0].period_ms, FIVE_MINUTES_MS);
    assert_eq!(
        groups[0].kinds,
        vec![TransactionKind::Swap, TransactionKind::MpcSignEddsa]
    );
}

#[test]
fn override_equal_to_default_merges_with_default_group() {
    let all_kinds = vec![TransactionKind::Swap, TransactionKind::TokenTransferDefault];
    let mut overrides: KindMap<u128> = KindMap::new();
    overrides.insert(TransactionKind::Swap, FIFTEEN_MINUTES_MS);

    let groups = partition_groups(&all_kinds, &overrides, FIFTEEN_MINUTES_MS);
    assert_eq!(groups.len(), 1);
    assert_eq!(groups[0].period_ms, FIFTEEN_MINUTES_MS);
    assert_eq!(
        groups[0].kinds,
        vec![TransactionKind::Swap, TransactionKind::TokenTransferDefault]
    );
}

#[test]
fn no_overrides_yields_one_default_group() {
    let all_kinds = vec![TransactionKind::Swap, TransactionKind::MpcSignEcdsa];
    let overrides: KindMap<u128> = KindMap::new();
    let groups = partition_groups(&all_kinds, &overrides, FIFTEEN_MINUTES_MS);
    assert_eq!(groups.len(), 1);
    assert_eq!(groups[0].period_ms, FIFTEEN_MINUTES_MS);
    assert_eq!(groups[0].kinds, all_kinds);
}

#[test]
fn empty_catalog_without_overrides_forms_no_group() {
    let overrides: KindMap<u128> = KindMap::new();
    let groups = partition_groups(&vec![], &overrides, FIFTEEN_MINUTES_MS);
    assert!(groups.is_empty());
}

#[test]
fn group_start_delay_saturates() {
    assert_eq!(group_start_delay_ms(5, 0), 0);
    assert_eq!(group_start_delay_ms(0, u128::MAX), 0);
    assert_eq!(group_start_delay_ms(2, u128::MAX), u128::MAX);
}
