use transaction_bench::round::{
    contains_kind, is_fake_endpoint, network_of, plan_round, plan_selected_round, select_kinds,
};
use transaction_bench::nonce::allocate_nonce;
use transaction_bench::strutil::{str_contains, str_eq};
use transaction_bench::TransactionKind;

#[test]
fn plan_round_issues_one_slot_per_kind_and_repeat() {
    let kinds = vec![
        TransactionKind::TokenTransferDefault,
        TransactionKind::Swap,
        TransactionKind::MpcSignEcdsa,
    ];
    let slots = plan_round(&kinds, 2, 500, 1000);
    assert_eq!(slots.len(), 3 * 2);

    let kinds = vec![TransactionKind::Swap];
    assert_eq!(plan_round(&kinds, 5, 0, 0).len(), 5);
    assert_eq!(plan_round(&kinds, 0, 0, 0).len(), 0);
}

#[test]
fn plan_round_two_kinds_two_repeats_nonces() {
    // Catalog {A, B}, base nonce 100, repeats 2: slots A#0, A#1, B#0, B#1
    // with nonces 101+j0, 102+j1, 103+j2, 104+j3, each jitter in [0, 1000].
    let kind_a = TransactionKind::MpcSignEcdsa;
    let kind_b = TransactionKind::Swap;
    let kinds = vec![kind_a, kind_b];
    let slots = plan_round(&kinds, 2, 100, 1000);

    assert_eq!(slots.len(), 4);
    assert_eq!(slots[0].kind, kind_a);
    assert_eq!(slots[1].kind, kind_a);
    assert_eq!(slots[2].kind, kind_b);
    assert_eq!(slots[3].kind, kind_b);
    for (p, slot) in slots.iter().enumerate() {
        assert_eq!(slot.kind_index, p / 2);
        assert_eq!(slot.repeat_index, p % 2);
        let floor = 100 + p as u64 + 1;
        assert!(slot.nonce >= floor);
        assert!(slot.nonce <= floor + 1000);
        assert!(slot.nonce > 100);
    }
}

#[test]
fn plan_round_without_jitter_allocates_consecutive_nonces() {
    let kinds = vec![TransactionKind::MpcSignEcdsa, TransactionKind::Swap];
    let slots = plan_round(&kinds, 2, 100, 0);
    let nonces: Vec<u64> = slots.iter().map(|s| s.nonce).collect();
    assert_eq!(nonces, vec![101, 102, 103, 104]);
}

#[test]
fn nonce_allocation_saturates_at_the_top() {
    assert_eq!(allocate_nonce(0, 0, 0), 1);
    assert_eq!(allocate_nonce(100, 3, 7), 111);
    assert_eq!(allocate_nonce(u64::MAX - 2, 5, 0), u64::MAX);
    assert_eq!(allocate_nonce(u64::MAX, 0, 0), u64::MAX);
}

#[test]
fn nonces_distinct_for_distinct_slots() {
    let kinds = vec![
        TransactionKind::TokenTransferDefault,
        TransactionKind::TokenTransferFinal,
        TransactionKind::Swap,
    ];
    let slots = plan_round(&kinds, 3, 7_000_000, 0);
    for i in 0..slots.len() {
        for j in 0..slots.len() {
            if i != j {
                assert_ne!(slots[i].nonce, slots[j].nonce);
            }
        }
    }
}

#[test]
fn plan_selected_round_filters_then_lays_out() {
    let kinds = vec![
        TransactionKind::TokenTransferDefault,
        TransactionKind::Swap,
        TransactionKind::MpcSignEcdsa,
    ];
    let selection = vec![TransactionKind::Swap];
    let slots = plan_selected_round(&kinds, &selection, 2, 100, 0).unwrap();
    assert_eq!(slots.len(), 2);
    assert_eq!(slots[0].kind, TransactionKind::Swap);
    assert_eq!(slots[1].kind, TransactionKind::Swap);
    assert_eq!(slots[0].nonce, 101);
    assert_eq!(slots[1].nonce, 102);

    // A slot count outside the machine's range is refused, not mangled.
    assert!(plan_selected_round(&kinds, &vec![], usize::MAX, 100, 1000).is_none());
}

#[test]
fn select_kinds_empty_selection_selects_everything() {
    let kinds = vec![TransactionKind::Swap, TransactionKind::MpcSignEddsa];
    let selected = select_kinds(&kinds, &vec![]);
    assert_eq!(selected, kinds);
}

#[test]
fn select_kinds_keeps_catalog_order() {
    let kinds = vec![
        TransactionKind::TokenTransferDefault,
        TransactionKind::Swap,
        TransactionKind::MpcSignEcdsa,
    ];
    let selection = vec![TransactionKind::MpcSignEcdsa, TransactionKind::TokenTransferDefault];
    let selected = select_kinds(&kinds, &selection);
    assert_eq!(
        selected,
        vec![TransactionKind::TokenTransferDefault, TransactionKind::MpcSignEcdsa]
    );
}

#[test]
fn network_label_derived_from_endpoint() {
    assert_eq!(network_of("https://rpc.mainnet.near.org"), "mainnet");
    assert_eq!(network_of("https://rpc.testnet.near.org"), "testnet");
    assert_eq!(network_of("https://rpc.statelessnet.near.org"), "statelessnet");
    assert_eq!(network_of("http://127.0.0.1:3030"), "localnet");
    assert_eq!(network_of(""), "localnet");
}

#[test]
fn fake_endpoint_detected_by_substring() {
    assert!(is_fake_endpoint("https://rpc.fake.near.org"));
    assert!(!is_fake_endpoint("https://rpc.mainnet.near.org"));
}

#[test]
fn string_helpers() {
    assert!(str_eq("swap", "swap"));
    assert!(!str_eq("swap", "swab"));
    assert!(!str_eq("swap", "swapp"));
    assert!(str_contains("benchmark", "mark"));
    assert!(str_contains("benchmark", ""));
    assert!(!str_contains("benchmark", "marks"));
    assert!(!str_contains("ma", "mark"));
    let kinds = vec![TransactionKind::Swap];
    assert!(contains_kind(&kinds, TransactionKind::Swap));
    assert!(!contains_kind(&kinds, TransactionKind::MpcCkd));
}
