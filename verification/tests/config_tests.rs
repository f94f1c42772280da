use transaction_bench::config::{
    build_interval_overwrite, parse_interval_overwrite, IntervalParseError,
};
use transaction_bench::TransactionKind;

#[test]
fn test_parse_interval_overwrite() {
    let json = r#"{"mpc-sign-ecdsa": "5m", "swap": "10m"}"#;
    let result = parse_interval_overwrite(json).unwrap();

    assert_eq!(result.len(), 2);
    // 5 minutes
    assert_eq!(result.get(TransactionKind::MpcSignEcdsa).copied(), Some(300_000u128));
    // 10 minutes
    assert_eq!(result.get(TransactionKind::Swap).copied(), Some(600_000u128));
}

#[test]
fn test_parse_interval_overwrite_invalid_json() {
    let json = r#"{"mpc-sign-ecdsa": "5m", "Swap":}"#;
    let result = parse_interval_overwrite(json);
    assert!(result.is_err());
}

#[test]
fn test_parse_interval_overwrite_invalid_transaction() {
    let json = r#"{"InvalidTransaction": "5m"}"#;
    let result = parse_interval_overwrite(json);
    assert!(result.is_err());
}

#[test]
fn test_parse_interval_overwrite_invalid_duration() {
    let json = r#"{"mpc-sign-ecdsa": "invalid"}"#;
    let result = parse_interval_overwrite(json);
    assert!(result.is_err());
}

#[test]
fn parse_interval_overwrite_not_an_object() {
    let result = parse_interval_overwrite(r#"["mpc-sign-ecdsa"]"#);
    assert!(matches!(result, Err(IntervalParseError::NotAJsonObject)));
    let result = parse_interval_overwrite("not json at all");
    assert!(matches!(result, Err(IntervalParseError::NotAJsonObject)));
}

#[test]
fn parse_interval_overwrite_unknown_kind_names_key() {
    let result = parse_interval_overwrite(r#"{"InvalidTransaction": "5m"}"#);
    match result {
        Err(IntervalParseError::UnknownTransactionKind(key)) => {
            assert_eq!(key, "InvalidTransaction");
        }
        other => panic!("expected an unknown-kind error, got {:?}", other),
    }
}

#[test]
fn parse_interval_overwrite_value_not_a_string() {
    let result = parse_interval_overwrite(r#"{"swap": 5}"#);
    match result {
        Err(IntervalParseError::ValueNotAString(key)) => {
            assert_eq!(key, "swap");
        }
        other => panic!("expected a non-string-value error, got {:?}", other),
    }
}

#[test]
fn parse_interval_overwrite_invalid_duration_names_key() {
    let result = parse_interval_overwrite(r#"{"mpc-sign-ecdsa": "invalid"}"#);
    match result {
        Err(IntervalParseError::InvalidDuration(key)) => {
            assert_eq!(key, "mpc-sign-ecdsa");
        }
        other => panic!("expected an invalid-duration error, got {:?}", other),
    }
}

#[test]
fn parse_interval_overwrite_last_entry_wins() {
    let json = r#"{"swap": "1m", "swap": "2m"}"#;
    let result = parse_interval_overwrite(json).unwrap();
    assert_eq!(result.len(), 1);
    assert_eq!(result.get(TransactionKind::Swap).copied(), Some(120_000u128));
}

#[test]
fn build_interval_overwrite_from_plain_entries() {
    let entries = vec![
        (String::from("swap"), Some(String::from("5m"))),
        (String::from("mpc-sign-eddsa"), Some(String::from("10s"))),
    ];
    let result = build_interval_overwrite(&entries).unwrap();
    assert_eq!(result.len(), 2);
    assert_eq!(result.get(TransactionKind::Swap).copied(), Some(300_000u128));
    assert_eq!(result.get(TransactionKind::MpcSignEddsa).copied(), Some(10_000u128));

    let missing_value = vec![(String::from("swap"), None)];
    assert!(matches!(
        build_interval_overwrite(&missing_value),
        Err(IntervalParseError::ValueNotAString(_))
    ));

    // The first offending entry decides the error.
    let two_faults = vec![
        (String::from("swap"), Some(String::from("nonsense"))),
        (String::from("nobody"), Some(String::from("5m"))),
    ];
    assert!(matches!(
        build_interval_overwrite(&two_faults),
        Err(IntervalParseError::InvalidDuration(_))
    ));
}

#[test]
fn parse_interval_overwrite_seconds() {
    let json = r#"{"token-transfer-default": "90s"}"#;
    let result = parse_interval_overwrite(json).unwrap();
    assert_eq!(
        result.get(TransactionKind::TokenTransferDefault).copied(),
        Some(90_000u128)
    );
}
