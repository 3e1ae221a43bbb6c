//! One probe attempt's result, and the event it is built from.
//!
//! A probe attempt ends in one of a handful of ways: the host did not
//! resolve, resolution returned no address, the connection was established
//! after a measured delay, the connection failed or timed out, or the clock
//! could not measure the delay. The caller that performs the network work
//! reports which of these happened as an [`AttemptEvent`]; `outcome_for`
//! turns that event into the immutable [`Outcome`] record that the rest of
//! the run works with.

use vstd::prelude::*;

verus! {

/// What one attempt produced: a measured connect delay, or a failure cause.
pub enum ProbeResult {
    Success { millis: u64 },
    Failure { cause: String },
}

/// One attempt's record: which target, which attempt in that target's
/// sequence, and how it went.
pub struct Outcome {
    pub host: String,
    pub sequence_number: usize,
    pub result: ProbeResult,
}

/// What the network side observed during one attempt.
pub enum AttemptEvent {
    /// Resolving the target's name failed outright.
    ResolveFailed { error: String },
    /// Resolution succeeded but returned no address.
    NoAddress,
    /// The connection was established after the given number of milliseconds.
    Connected { elapsed_millis: u64 },
    /// The connection failed or timed out.
    ConnectFailed { error: String },
    /// The elapsed time could not be read from the clock.
    ClockFailed { error: String },
}

pub open spec fn is_success(o: Outcome) -> bool {
    match o.result {
        ProbeResult::Success { .. } => true,
        ProbeResult::Failure { .. } => false,
    }
}

pub open spec fn success_millis(o: Outcome) -> u64 {
    match o.result {
        ProbeResult::Success { millis } => millis,
        ProbeResult::Failure { .. } => 0,
    }
}

pub open spec fn failure_cause(o: Outcome) -> Seq<char> {
    match o.result {
        ProbeResult::Success { .. } => Seq::empty(),
        ProbeResult::Failure { cause } => cause@,
    }
}

/// The outcome records exactly what the event reported: a connection is a
/// success carrying its elapsed time; every other event is a failure whose
/// cause is the reported error, or the fixed resolution message when
/// resolution returned no address.
pub open spec fn outcome_matches_event(o: Outcome, event: AttemptEvent) -> bool {
    match event {
        AttemptEvent::Connected { elapsed_millis } => is_success(o) && success_millis(o)
            == elapsed_millis,
        AttemptEvent::NoAddress => !is_success(o) && failure_cause(o) == "Unable to resolve DNS name"@,
        AttemptEvent::ResolveFailed { error } => !is_success(o) && failure_cause(o) == error@,
        AttemptEvent::ConnectFailed { error } => !is_success(o) && failure_cause(o) == error@,
        AttemptEvent::ClockFailed { error } => !is_success(o) && failure_cause(o) == error@,
    }
}

/// Builds the outcome record for one attempt from what the attempt observed.
pub fn outcome_for(host: &String, sequence_number: usize, event: AttemptEvent) -> (o: Outcome)
    ensures
        o.host@ == host@,
        o.sequence_number == sequence_number,
        outcome_matches_event(o, event),
{
    let result = match event {
        AttemptEvent::Connected { elapsed_millis } => ProbeResult::Success {
            millis: elapsed_millis,
        },
        AttemptEvent::NoAddress => ProbeResult::Failure {
            cause: "Unable to resolve DNS name".to_owned(),
        },
        AttemptEvent::ResolveFailed { error } => ProbeResult::Failure { cause: error },
        AttemptEvent::ConnectFailed { error } => ProbeResult::Failure { cause: error },
        AttemptEvent::ClockFailed { error } => ProbeResult::Failure { cause: error },
    };
    Outcome { host: host.clone(), sequence_number, result }
}

} // verus!
