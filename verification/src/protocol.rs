//! The submit-and-confirm protocol run for every dispatched transaction.
//!
//! A signed submission is sent once. An immediate response settles the
//! attempt: a successful execution yields `Success` with the elapsed time,
//! an unsuccessful one or a permanent error yields `Failure`. A transient
//! timeout instead opens a poll loop that queries the transaction's status
//! by its identity until a terminal answer arrives; timeouts from the poll
//! itself are retried indefinitely, and a successful poll reports latency
//! measured from the original submission, not from the poll.
use vstd::prelude::*;

verus! {

/// The terminal status a queried execution outcome reports.
#[derive(Clone, Copy, Debug, PartialEq, Eq, Structural)]
pub enum FinalStatus {
    NotStarted,
    Started,
    Failed,
    SuccessValue,
}

/// The status of one receipt produced by an execution.
#[derive(Clone, Copy, Debug, PartialEq, Eq, Structural)]
pub enum ReceiptStatus {
    Unknown,
    Failed,
    SuccessValue,
    SuccessReceiptId,
}

/// What an execution outcome attached to an RPC response says: the overall
/// status and the status of every receipt.
#[derive(Clone, Debug)]
pub struct ExecutionOutcomeSummary {
    pub status: FinalStatus,
    pub receipt_statuses: Vec<ReceiptStatus>,
}

/// An RPC response to a submission or a status poll; the execution outcome
/// is attached only when the queried node already has one.
#[derive(Clone, Debug)]
pub struct TxResponseSummary {
    pub final_outcome: Option<ExecutionOutcomeSummary>,
}

/// A receipt is in a recognized success state.
pub open spec fn spec_receipt_successful(r: ReceiptStatus) -> bool {
    r is SuccessValue || r is SuccessReceiptId
}

/// A response proves application-level success: either it carries no outcome
/// to check, or the outcome succeeded and every receipt is in a recognized
/// success state — acceptance alone is not proof of success.
pub open spec fn spec_transaction_successful(resp: TxResponseSummary) -> bool {
    match resp.final_outcome {
        None => true,
        Some(outcome) => outcome.status is SuccessValue && forall|i: int|
            0 <= i < outcome.receipt_statuses@.len() ==> spec_receipt_successful(
                #[trigger] outcome.receipt_statuses@[i],
            ),
    }
}

/// Decides whether a response proves application-level success.
pub fn is_transaction_successful(resp: &TxResponseSummary) -> (r: bool)
    ensures
        r == spec_transaction_successful(*resp),
{
    match &resp.final_outcome {
        None => true,
        Some(outcome) => {
            if !matches!(outcome.status, FinalStatus::SuccessValue) {
                return false;
            }
            let mut i: usize = 0;
            while i < outcome.receipt_statuses.len()
                invariant
                    resp.final_outcome == Some(*outcome),
                    outcome.status is SuccessValue,
                    i <= outcome.receipt_statuses@.len(),
                    forall|j: int|
                        0 <= j < i ==> spec_receipt_successful(
                            #[trigger] outcome.receipt_statuses@[j],
                        ),
                decreases outcome.receipt_statuses@.len() - i,
            {
                match outcome.receipt_statuses[i] {
                    ReceiptStatus::SuccessValue => {},
                    ReceiptStatus::SuccessReceiptId => {},
                    _ => {
                        proof {
                            assert(!spec_receipt_successful(
                                outcome.receipt_statuses@[i as int],
                            ));
                        }
                        return false;
                    },
                }
                i += 1;
            }
            true
        },
    }
}

/// What one RPC call (a submission or a status poll) came back with.
#[derive(Clone, Debug)]
pub enum RpcCallResult {
    /// The node answered; the response may carry an execution outcome.
    Response(TxResponseSummary),
    /// The call timed out transiently; the transaction may still land.
    TimeoutError,
    /// The call failed permanently, with the transport's message.
    PermanentError(String),
}

/// One RPC call's result together with the time elapsed since the original
/// submission when it arrived.
#[derive(Clone, Debug)]
pub struct TimedCallResult {
    pub result: RpcCallResult,
    pub elapsed_ms: u64,
}

/// Why an attempt failed.
#[derive(Clone, Debug)]
pub enum FailureReason {
    /// The submission was accepted but its execution did not succeed.
    UnsuccessfulExecution,
    /// The transport reported a permanent error.
    Rpc(String),
}

/// The classified outcome of one execution attempt, or of one step of it:
/// `Timeout` marks a transient timeout that keeps the attempt alive.
#[derive(Clone, Debug)]
pub enum Outcome {
    /// The attempt succeeded after this many milliseconds, measured from the
    /// original submission.
    Success(u64),
    /// The attempt failed permanently.
    Failure(FailureReason),
    /// A transient timeout; the attempt polls on.
    Timeout,
}

/// Where the protocol stands: the submission's own answer is pending, or a
/// transient timeout has already moved it into the poll loop.
#[derive(Clone, Copy, Debug, PartialEq, Eq, Structural)]
pub enum ProtocolPhase {
    Submitted,
    Polling,
}

/// What to do after one RPC call's result: settle the attempt, or poll the
/// transaction's status once more.
#[derive(Clone, Debug)]
pub enum ProtocolDecision {
    Finish(Outcome),
    Poll,
}

/// The protocol's transition table: how one call's result advances the
/// attempt in the given phase.
pub open spec fn spec_advance(phase: ProtocolPhase, t: TimedCallResult) -> ProtocolDecision {
    match t.result {
        RpcCallResult::TimeoutError => ProtocolDecision::Poll,
        RpcCallResult::PermanentError(message) => ProtocolDecision::Finish(
            Outcome::Failure(FailureReason::Rpc(message)),
        ),
        RpcCallResult::Response(resp) => match phase {
            ProtocolPhase::Submitted => if spec_transaction_successful(resp) {
                ProtocolDecision::Finish(Outcome::Success(t.elapsed_ms))
            } else {
                ProtocolDecision::Finish(Outcome::Failure(FailureReason::UnsuccessfulExecution))
            },
            ProtocolPhase::Polling => ProtocolDecision::Finish(Outcome::Success(t.elapsed_ms)),
        },
    }
}

/// Advances the attempt by one call result. A response settles it — checked
/// for application-level success when it answers the submission itself,
/// taken as resolution when it answers a poll; a permanent error settles it
/// as a failure; a transient timeout asks for one more poll.
pub fn advance(phase: ProtocolPhase, t: &TimedCallResult) -> (d: ProtocolDecision)
    ensures
        d == spec_advance(phase, *t),
{
    match &t.result {
        RpcCallResult::TimeoutError => ProtocolDecision::Poll,
        RpcCallResult::PermanentError(message) => ProtocolDecision::Finish(
            Outcome::Failure(FailureReason::Rpc(message.clone())),
        ),
        RpcCallResult::Response(resp) => match phase {
            ProtocolPhase::Submitted => {
                if is_transaction_successful(resp) {
                    ProtocolDecision::Finish(Outcome::Success(t.elapsed_ms))
                } else {
                    ProtocolDecision::Finish(
                        Outcome::Failure(FailureReason::UnsuccessfulExecution),
                    )
                }
            },
            ProtocolPhase::Polling => ProtocolDecision::Finish(Outcome::Success(t.elapsed_ms)),
        },
    }
}

/// The index of the first call result that is not a transient timeout.
pub open spec fn spec_first_terminal(results: Seq<TimedCallResult>) -> Option<int>
    decreases results.len(),
{
    if results.len() == 0 {
        None
    } else if !(results[0].result is TimeoutError) {
        Some(0)
    } else {
        match spec_first_terminal(results.drop_first()) {
            None => None,
            Some(i) => Some(i + 1),
        }
    }
}

/// The outcome the protocol settles on at terminal index `k`: a permanent
/// error is a failure; a response to the submission itself is judged by
/// application-level success; a response to a poll resolves the attempt with
/// latency measured from the original submission.
pub open spec fn spec_terminal_outcome(results: Seq<TimedCallResult>, k: int) -> Outcome
    recommends
        0 <= k < results.len(),
        !(results[k].result is TimeoutError),
{
    match results[k].result {
        RpcCallResult::PermanentError(message) => Outcome::Failure(FailureReason::Rpc(message)),
        RpcCallResult::Response(resp) => if k == 0 {
            if spec_transaction_successful(resp) {
                Outcome::Success(results[0].elapsed_ms)
            } else {
                Outcome::Failure(FailureReason::UnsuccessfulExecution)
            }
        } else {
            Outcome::Success(results[k].elapsed_ms)
        },
        RpcCallResult::TimeoutError => Outcome::Timeout,
    }
}

/// How one whole attempt settled: its outcome, how many RPC calls it took
/// (the submission plus the polls), and how many transient timeouts it rode
/// out on the way.
#[derive(Clone, Debug)]
pub struct ConfirmReport {
    pub outcome: Outcome,
    pub calls_made: usize,
    pub timeouts: usize,
}

/// Runs the whole protocol over the sequence of call results one attempt
/// received: `results[0]` answers the submission, the rest answer the polls
/// in order. Returns `None` only when every call timed out, i.e. when the
/// sequence ends before the protocol settled.
pub fn confirm_outcome(results: &Vec<TimedCallResult>) -> (r: Option<ConfirmReport>)
    ensures
        match spec_first_terminal(results@) {
            None => r is None,
            Some(k) => match r {
                Some(report) => {
                    &&& report.outcome == spec_terminal_outcome(results@, k)
                    &&& report.calls_made == k + 1
                    &&& report.timeouts == k
                },
                None => false,
            },
        },
{
    let mut i: usize = 0;
    while i < results.len()
        invariant
            i <= results@.len(),
            forall|j: int| 0 <= j < i ==> (#[trigger] results@[j]).result is TimeoutError,
        decreases results@.len() - i,
    {
        let phase = if i == 0 {
            ProtocolPhase::Submitted
        } else {
            ProtocolPhase::Polling
        };
        match advance(phase, &results[i]) {
            ProtocolDecision::Poll => {
                i += 1;
            },
            ProtocolDecision::Finish(outcome) => {
                proof {
                    lemma_first_terminal_at(results@, i as int);
                }
                return Some(ConfirmReport { outcome, calls_made: i + 1, timeouts: i });
            },
        }
    }
    proof {
        lemma_first_terminal_none(results@);
    }
    None
}

/// If the first `k` results are timeouts and result `k` is not, the first
/// terminal index is `k`.
proof fn lemma_first_terminal_at(results: Seq<TimedCallResult>, k: int)
    requires
        0 <= k < results.len(),
        forall|j: int| 0 <= j < k ==> (#[trigger] results[j]).result is TimeoutError,
        !(results[k].result is TimeoutError),
    ensures
        spec_first_terminal(results) == Some(k),
    decreases k,
{
    if k > 0 {
        assert(results[0].result is TimeoutError);
        assert forall|j: int| 0 <= j < k - 1 implies (
        #[trigger] results.drop_first()[j]).result is TimeoutError by {
            assert(results.drop_first()[j] == results[j + 1]);
        }
        assert(results.drop_first()[k - 1] == results[k]);
        lemma_first_terminal_at(results.drop_first(), k - 1);
    }
}

/// If every result is a timeout, there is no terminal index.
proof fn lemma_first_terminal_none(results: Seq<TimedCallResult>)
    requires
        forall|j: int| 0 <= j < results.len() ==> (#[trigger] results[j]).result is TimeoutError,
    ensures
        spec_first_terminal(results) is None,
    decreases results.len(),
{
    if results.len() > 0 {
        assert forall|j: int| 0 <= j < results.drop_first().len() implies (
        #[trigger] results.drop_first()[j]).result is TimeoutError by {
            assert(results.drop_first()[j] == results[j + 1]);
        }
        lemma_first_terminal_none(results.drop_first());
    }
}

/// The timeout-retry law: an attempt that rides out `n` transient timeouts
/// and then receives a response settles as `Success`, with latency measured
/// from the original submission — the elapsed time carried by the terminal
/// response itself, not by any poll that came before it.
pub proof fn law_timeout_retry(results: Seq<TimedCallResult>, n: int)
    requires
        0 <= n < results.len(),
        forall|j: int| 0 <= j < n ==> (#[trigger] results[j]).result is TimeoutError,
        results[n].result is Response,
        n == 0 ==> spec_transaction_successful(results[0].result->Response_0),
    ensures
        spec_first_terminal(results) == Some(n),
        spec_terminal_outcome(results, n) == Outcome::Success(results[n].elapsed_ms),
{
    lemma_first_terminal_at(results, n);
}

} // verus!
