use transaction_bench::metrics::{Labels, Metrics};
use transaction_bench::protocol::{
    advance, confirm_outcome, is_transaction_successful, ExecutionOutcomeSummary, FailureReason,
    FinalStatus, Outcome, ProtocolDecision, ProtocolPhase, ReceiptStatus, RpcCallResult,
    TimedCallResult, TxResponseSummary,
};

fn response(outcome: Option<ExecutionOutcomeSummary>) -> TxResponseSummary {
    TxResponseSummary { final_outcome: outcome }
}

fn successful_outcome() -> ExecutionOutcomeSummary {
    ExecutionOutcomeSummary {
        status: FinalStatus::SuccessValue,
        receipt_statuses: vec![ReceiptStatus::SuccessValue, ReceiptStatus::SuccessReceiptId],
    }
}

#[test]
fn timeouts_then_success_measures_latency_from_submission() {
    // Two transient timeouts, then the poll resolves: the attempt succeeds
    // with the elapsed time of the terminal response, counted from the
    // original submission, and the failure counter is untouched.
    let results = vec![
        TimedCallResult { result: RpcCallResult::TimeoutError, elapsed_ms: 1_000 },
        TimedCallResult { result: RpcCallResult::TimeoutError, elapsed_ms: 2_000 },
        TimedCallResult {
            result: RpcCallResult::Response(response(None)),
            elapsed_ms: 5_000,
        },
    ];
    let report = confirm_outcome(&results).unwrap();
    assert!(matches!(report.outcome, Outcome::Success(5_000)));
    assert_eq!(report.calls_made, 3);
    assert_eq!(report.timeouts, 2);

    let mut metrics = Metrics::new();
    metrics.record_outcome(&report.outcome);
    assert_eq!(metrics.successful_transactions, 1);
    assert_eq!(metrics.failed_transactions, 0);
    assert_eq!(metrics.latency_observations_ms, vec![5_000]);
}

#[test]
fn permanent_error_fails_without_retry() {
    // A permanent error settles the attempt at once: outcome Failure, the
    // failure counter goes up by one, the success counter stays, and no
    // further call is made.
    let results = vec![
        TimedCallResult {
            result: RpcCallResult::PermanentError(String::from("invalid transaction")),
            elapsed_ms: 100,
        },
        TimedCallResult {
            result: RpcCallResult::Response(response(None)),
            elapsed_ms: 200,
        },
    ];
    let report = confirm_outcome(&results).unwrap();
    match &report.outcome {
        Outcome::Failure(FailureReason::Rpc(message)) => {
            assert_eq!(message, "invalid transaction");
        }
        other => panic!("expected a permanent failure, got {:?}", other),
    }
    assert_eq!(report.calls_made, 1);
    assert_eq!(report.timeouts, 0);

    let mut metrics = Metrics::new();
    metrics.record_outcome(&report.outcome);
    assert_eq!(metrics.failed_transactions, 1);
    assert_eq!(metrics.successful_transactions, 0);
    assert!(metrics.latency_observations_ms.is_empty());
}

#[test]
fn immediate_successful_response_succeeds() {
    let results = vec![TimedCallResult {
        result: RpcCallResult::Response(response(Some(successful_outcome()))),
        elapsed_ms: 750,
    }];
    let report = confirm_outcome(&results).unwrap();
    assert!(matches!(report.outcome, Outcome::Success(750)));
    assert_eq!(report.calls_made, 1);
    assert_eq!(report.timeouts, 0);
}

#[test]
fn accepted_submission_with_failed_receipt_is_a_failure() {
    // Acceptance is not proof of application-level success: one receipt
    // outside the recognized success states fails the whole attempt.
    let outcome = ExecutionOutcomeSummary {
        status: FinalStatus::SuccessValue,
        receipt_statuses: vec![ReceiptStatus::SuccessValue, ReceiptStatus::Failed],
    };
    let results = vec![TimedCallResult {
        result: RpcCallResult::Response(response(Some(outcome))),
        elapsed_ms: 300,
    }];
    let report = confirm_outcome(&results).unwrap();
    assert!(matches!(
        report.outcome,
        Outcome::Failure(FailureReason::UnsuccessfulExecution)
    ));
}

#[test]
fn poll_response_resolves_even_without_outcome_check() {
    // A response to a status poll is taken as resolution.
    let unsuccessful = ExecutionOutcomeSummary {
        status: FinalStatus::Failed,
        receipt_statuses: vec![],
    };
    let results = vec![
        TimedCallResult { result: RpcCallResult::TimeoutError, elapsed_ms: 10 },
        TimedCallResult {
            result: RpcCallResult::Response(response(Some(unsuccessful))),
            elapsed_ms: 20,
        },
    ];
    let report = confirm_outcome(&results).unwrap();
    assert!(matches!(report.outcome, Outcome::Success(20)));
}

#[test]
fn all_timeouts_never_settle() {
    let results = vec![
        TimedCallResult { result: RpcCallResult::TimeoutError, elapsed_ms: 1 },
        TimedCallResult { result: RpcCallResult::TimeoutError, elapsed_ms: 2 },
    ];
    assert!(confirm_outcome(&results).is_none());
    assert!(confirm_outcome(&vec![]).is_none());
}

#[test]
fn transaction_success_judged_by_status_and_receipts() {
    assert!(is_transaction_successful(&response(None)));
    assert!(is_transaction_successful(&response(Some(successful_outcome()))));

    let not_started = ExecutionOutcomeSummary {
        status: FinalStatus::NotStarted,
        receipt_statuses: vec![],
    };
    assert!(!is_transaction_successful(&response(Some(not_started))));

    let bad_receipt = ExecutionOutcomeSummary {
        status: FinalStatus::SuccessValue,
        receipt_statuses: vec![ReceiptStatus::Unknown],
    };
    assert!(!is_transaction_successful(&response(Some(bad_receipt))));
}

#[test]
fn advance_steps_through_the_protocol() {
    let timeout = TimedCallResult { result: RpcCallResult::TimeoutError, elapsed_ms: 5 };
    assert!(matches!(
        advance(ProtocolPhase::Submitted, &timeout),
        ProtocolDecision::Poll
    ));
    assert!(matches!(
        advance(ProtocolPhase::Polling, &timeout),
        ProtocolDecision::Poll
    ));

    let resolved = TimedCallResult {
        result: RpcCallResult::Response(response(None)),
        elapsed_ms: 40,
    };
    assert!(matches!(
        advance(ProtocolPhase::Polling, &resolved),
        ProtocolDecision::Finish(Outcome::Success(40))
    ));
}

#[test]
fn timeout_outcome_increments_only_the_timeout_counter() {
    let mut metrics = Metrics::new();
    metrics.inc_attempted();
    metrics.record_outcome(&Outcome::Timeout);
    metrics.record_outcome(&Outcome::Timeout);
    assert_eq!(metrics.attempted_transactions, 1);
    assert_eq!(metrics.timeouts, 2);
    assert_eq!(metrics.successful_transactions, 0);
    assert_eq!(metrics.failed_transactions, 0);
}

#[test]
fn labels_carry_their_components() {
    let labels = Labels::new(
        String::from("swap"),
        String::from("mainnet"),
        String::from("eu"),
    );
    assert_eq!(labels.kind, "swap");
    assert_eq!(labels.network, "mainnet");
    assert_eq!(labels.location, "eu");
}
