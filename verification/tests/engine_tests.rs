use transaction_bench::account::Account;
use transaction_bench::config::{Mode, Opts};
use transaction_bench::kind_map::KindMap;
use transaction_bench::samples::{sample_info_of, MpcSignEcdsa, Swap, TokenTransferDefault};
use transaction_bench::{AppError, Engine, TransactionKind};

fn test_opts(interval_overwrite: Option<KindMap<u128>>) -> Opts {
    Opts {
        mode: Mode::Run,
        rpc_url: String::from("https://rpc.fake.near.org"),
        signer_id: String::from("cat.near"),
        receiver_id: String::from("dog.near"),
        wrap_near_id: String::from("frog.near"),
        ft_account_id: String::from("bear.near"),
        exchange_id: String::from("flamingo.near"),
        mpc_contract_id: String::from("frog.near"),
        pool_id: 0,
        transaction_kind: vec![],
        repeats_number: 1,
        period_ms: 900_000,
        group_delay_ms: 6_000,
        interval_overwrite,
        metric_server_address: String::from("0.0.0.0:9000"),
        location: String::from("eu"),
    }
}

#[test]
fn interval_groups_without_overrides_is_one_uniform_timer() {
    let engine = Engine::with_default_transactions();
    let groups = engine.interval_groups(&test_opts(None));
    assert_eq!(groups.len(), 1);
    assert_eq!(groups[0].period_ms, 900_000);
    assert_eq!(groups[0].kinds.len(), 7);
}

#[test]
fn interval_groups_with_overrides_partitions_the_catalog() {
    let engine = Engine::with_default_transactions();
    let mut overrides: KindMap<u128> = KindMap::new();
    overrides.insert(TransactionKind::MpcSignEcdsa, 300_000);
    let groups = engine.interval_groups(&test_opts(Some(overrides)));
    assert_eq!(groups.len(), 2);
    assert_eq!(groups[0].period_ms, 300_000);
    assert_eq!(groups[0].kinds, vec![TransactionKind::MpcSignEcdsa]);
    assert_eq!(groups[1].period_ms, 900_000);
    assert_eq!(groups[1].kinds.len(), 6);
}

#[test]
fn with_default_transactions_registers_seven_samples() {
    let engine = Engine::with_default_transactions();
    let catalog = engine.transactions();
    assert_eq!(catalog.len(), 7);
    for kind in [
        TransactionKind::TokenTransferDefault,
        TransactionKind::TokenTransferFinal,
        TransactionKind::TokenTransferIncludedFinal,
        TransactionKind::FungibleTokenTransfer,
        TransactionKind::Swap,
        TransactionKind::MpcSignEcdsa,
        TransactionKind::MpcSignEddsa,
    ] {
        let info = catalog.get(kind).unwrap();
        assert_eq!(info.kind, kind);
    }
    // The derived-key sample is not yet functional and stays unregistered.
    assert!(catalog.get(TransactionKind::MpcCkd).is_none());
}

#[test]
fn register_same_kind_twice_returns_previous_and_keeps_one_entry() {
    let mut engine = Engine::new();
    let first = sample_info_of(TransactionKind::Swap);
    let second = sample_info_of(TransactionKind::Swap);

    let none = engine.add_transaction(first);
    assert!(none.is_none());

    let prev = engine.add_transaction(second);
    let prev = prev.expect("second registration must return the first sample");
    assert_eq!(prev.kind, TransactionKind::Swap);
    assert_eq!(prev.name, "swap from NEAR to USDT");

    assert_eq!(engine.transactions().len(), 1);
    assert!(engine.transactions().get(TransactionKind::Swap).is_some());
}

#[test]
fn sample_for_unknown_kind_is_a_distinct_error() {
    let mut engine = Engine::new();
    engine.add_transaction(sample_info_of(TransactionKind::Swap));

    assert!(engine.sample_for(TransactionKind::Swap).is_ok());
    match engine.sample_for(TransactionKind::MpcCkd) {
        Err(AppError::UnknownTransactionType(kind)) => {
            assert_eq!(kind, TransactionKind::MpcCkd);
        }
        other => panic!("expected an unknown-kind error, got {:?}", other),
    }
}

#[test]
fn kind_names_round_trip() {
    for kind in [
        TransactionKind::TokenTransferDefault,
        TransactionKind::TokenTransferIncludedFinal,
        TransactionKind::TokenTransferFinal,
        TransactionKind::FungibleTokenTransfer,
        TransactionKind::Swap,
        TransactionKind::MpcSignEcdsa,
        TransactionKind::MpcSignEddsa,
        TransactionKind::MpcCkd,
    ] {
        assert_eq!(TransactionKind::from_str(kind.name()), Some(kind));
    }
    assert_eq!(TransactionKind::from_str("swap"), Some(TransactionKind::Swap));
    assert_eq!(
        TransactionKind::from_str("mpc-sign-ecdsa"),
        Some(TransactionKind::MpcSignEcdsa)
    );
    assert_eq!(TransactionKind::from_str("Swap"), None);
    assert_eq!(TransactionKind::from_str("InvalidTransaction"), None);
}

#[test]
fn sample_markers_report_their_kind_and_name() {
    assert_eq!(
        TokenTransferDefault {}.kind(),
        TransactionKind::TokenTransferDefault
    );
    assert_eq!(
        TokenTransferDefault {}.get_name(),
        "NEAR transfer, wait_until default"
    );
    assert_eq!(MpcSignEcdsa {}.kind(), TransactionKind::MpcSignEcdsa);
    assert_eq!(MpcSignEcdsa {}.get_name(), "Call MPC ecdsa sign function");
    assert_eq!(Swap {}.kind(), TransactionKind::Swap);
}

#[test]
fn account_from_str_parses_three_segments() {
    let account = Account::from_str("alice.near:bob.near:mainnet").unwrap();
    assert_eq!(account.signer_id, "alice.near");
    assert_eq!(account.buddy_id, "bob.near");
    assert_eq!(account.network, "mainnet");
    assert_eq!(account.display_string(), "alice.near:bob.near:mainnet");
}

#[test]
fn account_from_str_rejects_other_shapes() {
    for bad in ["alice.near", "a:b", "a:b:c:d", "", ":::"] {
        match Account::from_str(bad) {
            Err(AppError::AccountParseError(input)) => assert_eq!(input, bad),
            other => panic!("expected a parse error for {:?}, got {:?}", bad, other),
        }
    }
    let empty_segments = Account::from_str("::").unwrap();
    assert_eq!(empty_segments.signer_id, "");
    assert_eq!(empty_segments.buddy_id, "");
    assert_eq!(empty_segments.network, "");
}

#[test]
fn error_messages_render() {
    assert_eq!(
        AppError::UnknownTransactionType(TransactionKind::Swap).message(),
        "transaction type swap not known"
    );
    assert_eq!(
        AppError::TransactionError(String::from("boom")).message(),
        "transaction error(boom)"
    );
    assert_eq!(
        AppError::AccountParseError(String::from("x")).message(),
        "cannot parse account and network from 'x'"
    );
    assert_eq!(AppError::Unknown.message(), "unknown error");
}
