//! The events the engine emits about every execution attempt, and the
//! counters they drive.
//!
//! The exporting instrument registry is an external collaborator; the
//! library models one label set's instruments as plain counters plus the
//! sequence of observed latencies, so that what each outcome does to them
//! is stated exactly.
use vstd::prelude::*;

use crate::protocol::Outcome;

verus! {

/// The label set every instrument is keyed by: transaction kind, network
/// and geographical location, all derived deterministically.
#[derive(Clone, Debug, PartialEq, Eq, Hash)]
pub struct Labels {
    pub kind: String,
    pub network: String,
    pub location: String,
}

impl Labels {
    /// Builds the label set from its three components.
    pub fn new(kind: String, network: String, location: String) -> (r: Labels)
        ensures
            r.kind@ == kind@,
            r.network@ == network@,
            r.location@ == location@,
    {
        Labels { kind, network, location }
    }

}

/// The instruments kept for one label set: how many attempts were announced,
/// how many settled each way, how many transient timeouts were ridden out,
/// and every observed latency in milliseconds.
#[derive(Clone, Debug, PartialEq, Eq)]
pub struct Metrics {
    pub attempted_transactions: u64,
    pub successful_transactions: u64,
    pub failed_transactions: u64,
    pub timeouts: u64,
    pub latency_observations_ms: Vec<u64>,
}

/// `x + 1`, saturating at the top of the counter's range.
pub open spec fn spec_inc(x: u64) -> u64 {
    if x == u64::MAX {
        x
    } else {
        (x + 1) as u64
    }
}

/// What applying one classified outcome does to the instruments: a success
/// increments the success counter and observes its latency, a failure
/// increments the failure counter alone, a transient timeout increments the
/// timeout counter alone — no outcome ever touches another outcome's
/// counter, and none touches the attempted counter.
pub open spec fn spec_outcome_applied(before: Metrics, outcome: Outcome, after: Metrics) -> bool {
    after.attempted_transactions == before.attempted_transactions && match outcome {
        Outcome::Success(latency_ms) => {
            &&& after.successful_transactions == spec_inc(before.successful_transactions)
            &&& after.failed_transactions == before.failed_transactions
            &&& after.timeouts == before.timeouts
            &&& after.latency_observations_ms@ == before.latency_observations_ms@.push(
                latency_ms,
            )
        },
        Outcome::Failure(_) => {
            &&& after.successful_transactions == before.successful_transactions
            &&& after.failed_transactions == spec_inc(before.failed_transactions)
            &&& after.timeouts == before.timeouts
            &&& after.latency_observations_ms == before.latency_observations_ms
        },
        Outcome::Timeout => {
            &&& after.successful_transactions == before.successful_transactions
            &&& after.failed_transactions == before.failed_transactions
            &&& after.timeouts == spec_inc(before.timeouts)
            &&& after.latency_observations_ms == before.latency_observations_ms
        },
    }
}

impl Metrics {
    /// Fresh instruments, all at zero.
    pub fn new() -> (r: Metrics)
        ensures
            r.attempted_transactions == 0,
            r.successful_transactions == 0,
            r.failed_transactions == 0,
            r.timeouts == 0,
            r.latency_observations_ms@ == Seq::<u64>::empty(),
    {
        Metrics {
            attempted_transactions: 0,
            successful_transactions: 0,
            failed_transactions: 0,
            timeouts: 0,
            latency_observations_ms: Vec::new(),
        }
    }

    /// Announces one attempted transaction; touches nothing else.
    pub fn inc_attempted(&mut self)
        ensures
            final(self).attempted_transactions == spec_inc(old(self).attempted_transactions),
            final(self).successful_transactions == old(self).successful_transactions,
            final(self).failed_transactions == old(self).failed_transactions,
            final(self).timeouts == old(self).timeouts,
            final(self).latency_observations_ms == old(self).latency_observations_ms,
    {
        if self.attempted_transactions < u64::MAX {
            self.attempted_transactions = self.attempted_transactions + 1;
        }
    }

    /// Applies one classified outcome: a success increments the success
    /// counter and observes its latency, a failure increments the failure
    /// counter alone, a transient timeout increments the timeout counter
    /// alone. No outcome ever touches another outcome's counter.
    pub fn record_outcome(&mut self, outcome: &Outcome)
        ensures
            spec_outcome_applied(*old(self), *outcome, *final(self)),
    {
        match outcome {
            Outcome::Success(latency_ms) => {
                if self.successful_transactions < u64::MAX {
                    self.successful_transactions = self.successful_transactions + 1;
                }
                self.latency_observations_ms.push(*latency_ms);
            },
            Outcome::Failure(_) => {
                if self.failed_transactions < u64::MAX {
                    self.failed_transactions = self.failed_transactions + 1;
                }
            },
            Outcome::Timeout => {
                if self.timeouts < u64::MAX {
                    self.timeouts = self.timeouts + 1;
                }
            },
        }
    }
}

/// The timeout-retry law, carried to the instruments: an attempt that rides
/// out `n` transient timeouts and then receives a response settles as
/// `Success`, with latency measured from the original submission, and
/// applying that outcome increments the success counter and observes the
/// latency while leaving the failure counter exactly where it was.
pub proof fn law_timeout_retry_counters(
    results: Seq<crate::protocol::TimedCallResult>,
    n: int,
    before: Metrics,
    after: Metrics,
)
    requires
        0 <= n < results.len(),
        forall|j: int| 0 <= j < n ==> (#[trigger] results[j]).result is TimeoutError,
        results[n].result is Response,
        n == 0 ==> crate::protocol::spec_transaction_successful(results[0].result->Response_0),
        spec_outcome_applied(
            before,
            crate::protocol::spec_terminal_outcome(results, n),
            after,
        ),
    ensures
        crate::protocol::spec_first_terminal(results) == Some(n),
        crate::protocol::spec_terminal_outcome(results, n) == Outcome::Success(
            results[n].elapsed_ms,
        ),
        after.failed_transactions == before.failed_transactions,
        after.successful_transactions == spec_inc(before.successful_transactions),
        after.latency_observations_ms@ == before.latency_observations_ms@.push(
            results[n].elapsed_ms,
        ),
{
    crate::protocol::law_timeout_retry(results, n);
}

} // verus!
