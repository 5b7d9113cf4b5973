//! What a listener does with each outcome of accepting a connection.
use vstd::prelude::*;

use crate::io_error::{is_transient, is_transient_accept_error, IoErrorKind};

verus! {

/// The outcome of one attempt to accept a connection.
#[derive(Clone, Copy, Debug, PartialEq, Eq, Structural)]
pub enum AcceptOutcome {
    /// A connection was accepted.
    Accepted,
    /// The attempt failed.
    Failed(IoErrorKind),
}

/// What `accept` does next.
#[derive(Clone, Copy, Debug, PartialEq, Eq, Structural)]
pub enum AcceptAction {
    /// Return the accepted connection with its peer's address.
    Deliver,
    /// Try again.
    Retry,
    /// Return the failure.
    Fail,
}

/// The outcome of one poll for an incoming connection.
#[derive(Clone, Copy, Debug, PartialEq, Eq, Structural)]
pub enum PollAcceptOutcome {
    /// The attempt completed.
    Ready(AcceptOutcome),
    /// No connection is waiting yet; the task will be woken.
    Pending,
}

/// What `poll_accept` does next.
#[derive(Clone, Copy, Debug, PartialEq, Eq, Structural)]
pub enum PollAcceptAction {
    /// Return the accepted connection with its peer's address.
    Deliver,
    /// Poll again.
    Retry,
    /// Return the failure.
    Fail,
    /// Report that nothing is ready yet.
    Pending,
}

/// The step that `accept` takes after an attempt.
pub open spec fn spec_accept_action(outcome: AcceptOutcome) -> AcceptAction {
    match outcome {
        AcceptOutcome::Accepted => AcceptAction::Deliver,
        AcceptOutcome::Failed(kind) => if is_transient(kind) {
            AcceptAction::Retry
        } else {
            AcceptAction::Fail
        },
    }
}

/// The step that `poll_accept` takes after a poll.
pub open spec fn spec_poll_accept_action(outcome: PollAcceptOutcome) -> PollAcceptAction {
    match outcome {
        PollAcceptOutcome::Pending => PollAcceptAction::Pending,
        PollAcceptOutcome::Ready(AcceptOutcome::Accepted) => PollAcceptAction::Deliver,
        PollAcceptOutcome::Ready(AcceptOutcome::Failed(kind)) => if is_transient(kind) {
            PollAcceptAction::Retry
        } else {
            PollAcceptAction::Fail
        },
    }
}

/// Decides what `accept` does after an attempt: an accepted connection is
/// returned, a refused, aborted or reset connection is skipped and the
/// listener tries again, and any other failure is returned.
pub fn accept_action(outcome: AcceptOutcome) -> (action: AcceptAction)
    ensures
        action == spec_accept_action(outcome),
{
    match outcome {
        AcceptOutcome::Accepted => AcceptAction::Deliver,
        AcceptOutcome::Failed(kind) => if is_transient_accept_error(kind) {
            AcceptAction::Retry
        } else {
            AcceptAction::Fail
        },
    }
}

/// Decides what `poll_accept` does after a poll: as `accept` after a completed
/// attempt, and nothing but a report of `Pending` while no connection waits.
pub fn poll_accept_action(outcome: PollAcceptOutcome) -> (action: PollAcceptAction)
    ensures
        action == spec_poll_accept_action(outcome),
{
    match outcome {
        PollAcceptOutcome::Pending => PollAcceptAction::Pending,
        PollAcceptOutcome::Ready(attempt) => match accept_action(attempt) {
            AcceptAction::Deliver => PollAcceptAction::Deliver,
            AcceptAction::Retry => PollAcceptAction::Retry,
            AcceptAction::Fail => PollAcceptAction::Fail,
        },
    }
}

/// `accept` goes on exactly after a transient failure, and every failure it
/// returns is one that is not transient.
pub proof fn lemma_accept_retries_exactly_transient_failures(outcome: AcceptOutcome)
    ensures
        spec_accept_action(outcome) is Retry <==> (outcome matches AcceptOutcome::Failed(k)
            && is_transient(k)),
        spec_accept_action(outcome) is Fail <==> (outcome matches AcceptOutcome::Failed(k)
            && !is_transient(k)),
        spec_accept_action(outcome) is Deliver <==> outcome is Accepted,
{
}

/// `poll_accept` takes the same step as `accept` on every completed attempt,
/// and reports `Pending` exactly when the poll is pending.
pub proof fn lemma_poll_accept_agrees_with_accept(outcome: AcceptOutcome)
    ensures
        spec_poll_accept_action(PollAcceptOutcome::Ready(outcome)) is Deliver
            <==> spec_accept_action(outcome) is Deliver,
        spec_poll_accept_action(PollAcceptOutcome::Ready(outcome)) is Retry
            <==> spec_accept_action(outcome) is Retry,
        spec_poll_accept_action(PollAcceptOutcome::Ready(outcome)) is Fail
            <==> spec_accept_action(outcome) is Fail,
        !(spec_poll_accept_action(PollAcceptOutcome::Ready(outcome)) is Pending),
        spec_poll_accept_action(PollAcceptOutcome::Pending) is Pending,
{
}

} // verus!
