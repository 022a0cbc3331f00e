//! The adapter's decisions, as functions of what the reactor and the socket
//! answered. Nothing here touches a socket.

use vstd::prelude::*;
use crate::outcome::{NextStep, Progress, Readiness, RecvOutcome, SendOutcome, Turn};

verus! {

/// The outcome of a readiness query decides how draining goes on: a consumed
/// notification asks for another query, "nothing pending" ends the drain with
/// success, and a failure ends it with that very error.
pub open spec fn drain_turn<E>(polled: Readiness<E>) -> Turn<Result<(), E>> {
    match polled {
        Readiness::Ready => Turn::Again,
        Readiness::Pending => Turn::Done(Ok(())),
        Readiness::Failed(e) => Turn::Done(Err(e)),
    }
}

/// What the inbound side yields for a receive outcome: "would block" suspends
/// and yields nothing, anything else is yielded as it came. The end of the
/// sequence, `Ready(None)`, is never produced.
pub open spec fn inbound<E>(outcome: RecvOutcome<E>) -> Progress<Option<Result<Vec<u8>, E>>> {
    match outcome {
        RecvOutcome::Message(bytes) => Progress::Ready(Some(Ok(bytes))),
        RecvOutcome::WouldBlock => Progress::Pending,
        RecvOutcome::Failed(e) => Progress::Ready(Some(Err(e))),
    }
}

/// The outbound slot after a send attempt of the message it holds: it keeps
/// the message only while the socket would block.
pub open spec fn slot_after_send<E>(slot: Option<Seq<u8>>, outcome: SendOutcome<E>) -> Option<
    Seq<u8>,
> {
    match outcome {
        SendOutcome::WouldBlock => slot,
        _ => None,
    }
}

/// What a flush reports after a send attempt.
pub open spec fn outbound<E>(outcome: SendOutcome<E>) -> Progress<Result<(), E>> {
    match outcome {
        SendOutcome::Sent => Progress::Ready(Ok(())),
        SendOutcome::WouldBlock => Progress::Pending,
        SendOutcome::Failed(e) => Progress::Ready(Err(e)),
    }
}

/// One turn of a poll of the inbound side, given what the reactor answered and,
/// where the drain ended with success, what the receive attempt gave. A failed
/// readiness query is yielded as the item of this poll; the socket is then not
/// touched.
pub open spec fn next_turn<E>(polled: Readiness<E>, outcome: RecvOutcome<E>) -> Turn<
    Progress<Option<Result<Vec<u8>, E>>>,
> {
    match polled {
        Readiness::Ready => Turn::Again,
        Readiness::Pending => Turn::Done(inbound(outcome)),
        Readiness::Failed(e) => Turn::Done(Progress::Ready(Some(Err(e)))),
    }
}

/// One turn of a flush: the slot afterwards and what is reported, given the
/// slot before, what the reactor answered and, where a buffered message was
/// handed to the socket, what the send attempt gave. The socket is touched
/// only when the drain ended with success and the slot is occupied.
pub open spec fn flush_turn<E>(
    slot: Option<Seq<u8>>,
    polled: Readiness<E>,
    outcome: SendOutcome<E>,
) -> (Option<Seq<u8>>, Turn<Progress<Result<(), E>>>) {
    match polled {
        Readiness::Ready => (slot, Turn::Again),
        Readiness::Failed(e) => (slot, Turn::Done(Progress::Ready(Err(e)))),
        Readiness::Pending => match slot {
            None => (slot, Turn::Done(Progress::Ready(Ok(())))),
            Some(_) => (slot_after_send(slot, outcome), Turn::Done(outbound(outcome))),
        },
    }
}

/// Decides how draining goes on after one readiness query.
pub fn listened<E>(polled: Readiness<E>) -> (turn: Turn<Result<(), E>>)
    ensures
        turn == drain_turn(polled),
{
    match polled {
        Readiness::Ready => Turn::Again,
        Readiness::Pending => Turn::Done(Ok(())),
        Readiness::Failed(e) => Turn::Done(Err(e)),
    }
}

/// Decides what a poll of the inbound side does after one readiness query:
/// it queries again after a consumed notification, yields the query's error as
/// the item of this poll without touching the socket, and makes a receive
/// attempt only when nothing more is pending.
pub fn next_step<E>(polled: Readiness<E>) -> (step: NextStep<E>)
    ensures
        step == (match polled {
            Readiness::Ready => NextStep::Again,
            Readiness::Failed(e) => NextStep::Report(Progress::Ready(Some(Err(e)))),
            Readiness::Pending => NextStep::Receive,
        }),
{
    match polled {
        Readiness::Ready => NextStep::Again,
        Readiness::Failed(e) => NextStep::Report(Progress::Ready(Some(Err(e)))),
        Readiness::Pending => NextStep::Receive,
    }
}

/// Turns a receive outcome into what the inbound side yields.
pub fn received<E>(outcome: RecvOutcome<E>) -> (polled: Progress<Option<Result<Vec<u8>, E>>>)
    ensures
        polled == inbound(outcome),
{
    match outcome {
        RecvOutcome::Message(bytes) => Progress::Ready(Some(Ok(bytes))),
        RecvOutcome::WouldBlock => Progress::Pending,
        RecvOutcome::Failed(e) => Progress::Ready(Some(Err(e))),
    }
}

} // verus!
