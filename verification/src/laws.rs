//! What holds of whole runs of polls, proved from the decisions of a single
//! turn.

use vstd::prelude::*;
use crate::decide::{drain_turn, flush_turn, inbound, next_turn, outbound, slot_after_send};
use crate::outcome::{Progress, Readiness, RecvOutcome, SendOutcome, Turn};

verus! {

/// How a drain ends when the reactor gives `polls` in turn: the first answer
/// other than `Ready` decides, and `None` says that every answer so far was a
/// consumed notification, so that the drain still goes on.
pub open spec fn drain_run<E>(polls: Seq<Readiness<E>>) -> Option<Result<(), E>>
    decreases polls.len(),
{
    if polls.len() == 0 {
        None
    } else {
        match drain_turn(polls.first()) {
            Turn::Again => drain_run(polls.drop_first()),
            Turn::Done(ended) => Some(ended),
        }
    }
}

/// A drain consumes every pending notification and ends at the first answer
/// that is not one: with success if nothing more was pending, with the
/// query's own error if the query failed. Answers after that one play no part.
pub proof fn lemma_drain_ends_at_first_unready<E>(polls: Seq<Readiness<E>>, at: int)
    requires
        0 <= at < polls.len(),
        forall|i: int| 0 <= i < at ==> polls[i] is Ready,
        !(polls[at] is Ready),
    ensures
        drain_run(polls) == match polls[at] {
            Readiness::Failed(e) => Some(Err::<(), E>(e)),
            _ => Some(Ok::<(), E>(())),
        },
    decreases at,
{
    if at > 0 {
        let rest = polls.drop_first();
        assert(rest[at - 1] == polls[at]);
        assert forall|i: int| 0 <= i < at - 1 implies rest[i] is Ready by {
            assert(rest[i] == polls[i + 1]);
        }
        lemma_drain_ends_at_first_unready(rest, at - 1);
    }
}

/// While every answer is a consumed notification the drain has not ended.
pub proof fn lemma_drain_goes_on_while_ready<E>(polls: Seq<Readiness<E>>)
    requires
        forall|i: int| 0 <= i < polls.len() ==> polls[i] is Ready,
    ensures
        drain_run(polls) is None,
    decreases polls.len(),
{
    if polls.len() > 0 {
        let rest = polls.drop_first();
        assert forall|i: int| 0 <= i < rest.len() implies rest[i] is Ready by {
            assert(rest[i] == polls[i + 1]);
        }
        lemma_drain_goes_on_while_ready(rest);
    }
}

/// What a poll of the inbound side reports when its turns are repeated while
/// they say `Again`, the reactor answering with `polls` in turn and the
/// receive attempt, if it comes to one, giving `outcome`. `None` says that
/// the poll still goes on.
pub open spec fn next_poll<E>(polls: Seq<Readiness<E>>, outcome: RecvOutcome<E>) -> Option<
    Progress<Option<Result<Vec<u8>, E>>>,
>
    decreases polls.len(),
{
    if polls.len() == 0 {
        None
    } else {
        match next_turn(polls.first(), outcome) {
            Turn::Again => next_poll(polls.drop_first(), outcome),
            Turn::Done(report) => Some(report),
        }
    }
}

/// A poll of the inbound side is a drain followed by at most one receive
/// attempt: if the drain fails, its error is the item of this poll; if it
/// ends with success, the poll reports what the receive attempt gives.
pub proof fn lemma_next_poll_drains_first<E>(polls: Seq<Readiness<E>>, outcome: RecvOutcome<E>)
    ensures
        next_poll(polls, outcome) == match drain_run(polls) {
            None => None,
            Some(Ok(())) => Some(inbound(outcome)),
            Some(Err(e)) => Some(Progress::Ready(Some(Err(e)))),
        },
    decreases polls.len(),
{
    if polls.len() > 0 {
        lemma_next_poll_drains_first(polls.drop_first(), outcome);
    }
}

/// The slot after a flush and what the flush reports when its turns are
/// repeated while they say `Again`, the reactor answering with `polls` in
/// turn and the send attempt, if it comes to one, giving `outcome`. `None`
/// says that the flush still goes on.
pub open spec fn flush_poll<E>(
    slot: Option<Seq<u8>>,
    polls: Seq<Readiness<E>>,
    outcome: SendOutcome<E>,
) -> Option<(Option<Seq<u8>>, Progress<Result<(), E>>)>
    decreases polls.len(),
{
    if polls.len() == 0 {
        None
    } else {
        let (after, turn) = flush_turn(slot, polls.first(), outcome);
        match turn {
            Turn::Again => flush_poll(after, polls.drop_first(), outcome),
            Turn::Done(report) => Some((after, report)),
        }
    }
}

/// A flush is a drain followed by at most one send attempt: if the drain
/// fails, its error is reported and the slot is left alone; if it ends with
/// success, an empty slot gives success at once, and a buffered message is
/// handed to the socket once, staying in the slot only if the socket would
/// block.
pub proof fn lemma_flush_poll_drains_first<E>(
    slot: Option<Seq<u8>>,
    polls: Seq<Readiness<E>>,
    outcome: SendOutcome<E>,
)
    ensures
        flush_poll(slot, polls, outcome) == match drain_run(polls) {
            None => None,
            Some(Err(e)) => Some((slot, Progress::Ready(Err(e)))),
            Some(Ok(())) => match slot {
                None => Some((slot, Progress::Ready(Ok(())))),
                Some(_) => Some((slot_after_send(slot, outcome), outbound(outcome))),
            },
        },
    decreases polls.len(),
{
    if polls.len() > 0 {
        lemma_flush_poll_drains_first(slot, polls.drop_first(), outcome);
    }
}

/// What the inbound side reports, poll after poll, when the drains end with
/// success and the receive attempts give `outcomes` in turn.
pub open spec fn inbound_run<E>(outcomes: Seq<RecvOutcome<E>>) -> Seq<
    Progress<Option<Result<Vec<u8>, E>>>,
> {
    Seq::new(outcomes.len(), |i: int| inbound(outcomes[i]))
}

/// The payloads that the socket produced, in its order.
pub open spec fn available<E>(outcomes: Seq<RecvOutcome<E>>) -> Seq<Vec<u8>>
    decreases outcomes.len(),
{
    if outcomes.len() == 0 {
        Seq::empty()
    } else {
        let before = available(outcomes.drop_last());
        match outcomes.last() {
            RecvOutcome::Message(bytes) => before.push(bytes),
            _ => before,
        }
    }
}

/// How often the socket would have blocked.
pub open spec fn blocked<E>(outcomes: Seq<RecvOutcome<E>>) -> nat
    decreases outcomes.len(),
{
    if outcomes.len() == 0 {
        0
    } else {
        let before = blocked(outcomes.drop_last());
        match outcomes.last() {
            RecvOutcome::WouldBlock => before + 1,
            _ => before,
        }
    }
}

/// The payloads that the polls yielded, in the order of the polls.
pub open spec fn yielded<E>(polls: Seq<Progress<Option<Result<Vec<u8>, E>>>>) -> Seq<Vec<u8>>
    decreases polls.len(),
{
    if polls.len() == 0 {
        Seq::empty()
    } else {
        let before = yielded(polls.drop_last());
        match polls.last() {
            Progress::Ready(Some(Ok(bytes))) => before.push(bytes),
            _ => before,
        }
    }
}

/// How many of the polls suspended.
pub open spec fn suspended<E>(polls: Seq<Progress<Option<Result<Vec<u8>, E>>>>) -> nat
    decreases polls.len(),
{
    if polls.len() == 0 {
        0
    } else {
        let before = suspended(polls.drop_last());
        match polls.last() {
            Progress::Pending => before + 1,
            _ => before,
        }
    }
}

/// The inbound side yields exactly the payloads that the socket produced, in
/// the socket's order and unchanged; every "would block" gives one suspension
/// and nothing else does; and no poll reports the end of the sequence.
pub proof fn lemma_inbound_keeps_order<E>(outcomes: Seq<RecvOutcome<E>>)
    ensures
        inbound_run(outcomes).len() == outcomes.len(),
        yielded(inbound_run(outcomes)) == available(outcomes),
        suspended(inbound_run(outcomes)) == blocked(outcomes),
        forall|i: int|
            0 <= i < outcomes.len() ==> (#[trigger] inbound_run(outcomes)[i] is Pending
                <==> outcomes[i] is WouldBlock),
        forall|i: int|
            0 <= i < outcomes.len() ==> #[trigger] inbound_run(outcomes)[i] != Progress::<
                Option<Result<Vec<u8>, E>>,
            >::Ready(None),
    decreases outcomes.len(),
{
    if outcomes.len() > 0 {
        lemma_inbound_keeps_order(outcomes.drop_last());
        assert(inbound_run(outcomes).drop_last() =~= inbound_run(outcomes.drop_last()));
        assert(inbound_run(outcomes).last() == inbound(outcomes.last()));
    }
}

/// A turn of the inbound side never reports the end of the sequence, whatever
/// the reactor and the socket answered.
pub proof fn lemma_inbound_never_ends<E>(polled: Readiness<E>, outcome: RecvOutcome<E>)
    ensures
        next_turn(polled, outcome) != Turn::<Progress<Option<Result<Vec<u8>, E>>>>::Done(
            Progress::Ready(None),
        ),
{
}

/// The slot and the reports after a run of flush turns that starts with
/// `slot`, the reactor and the socket answering with `events` in turn.
pub open spec fn flush_run<E>(slot: Option<Seq<u8>>, events: Seq<(Readiness<E>, SendOutcome<E>)>)
    -> (Option<Seq<u8>>, Seq<Turn<Progress<Result<(), E>>>>)
    decreases events.len(),
{
    if events.len() == 0 {
        (slot, Seq::empty())
    } else {
        let (mid, reports) = flush_run(slot, events.drop_last());
        let (after, report) = flush_turn(mid, events.last().0, events.last().1);
        (after, reports.push(report))
    }
}

/// Flushing an empty slot never suspends and never touches the slot: once
/// the drain has ended with success it reports success at once, whatever a
/// send attempt would have given.
pub proof fn lemma_flush_of_empty_slot<E>(polled: Readiness<E>, outcome: SendOutcome<E>)
    ensures
        flush_turn(None, polled, outcome).0 is None,
        flush_turn(None, polled, outcome).1 == (match polled {
            Readiness::Ready => Turn::Again,
            Readiness::Pending => Turn::Done(Progress::Ready(Ok(()))),
            Readiness::Failed(e) => Turn::Done(Progress::Ready(Err(e))),
        }),
        flush_turn(None, polled, outcome).1 != Turn::<Progress<Result<(), E>>>::Done(
            Progress::Pending,
        ),
{
}

/// Flushing is idempotent on an empty slot: however often it is repeated, the
/// slot stays empty, no turn suspends, and every turn whose drain ended with
/// success reports success.
pub proof fn lemma_flush_idempotent_when_empty<E>(events: Seq<(Readiness<E>, SendOutcome<E>)>)
    ensures
        flush_run(None, events).0 is None,
        flush_run(None, events).1.len() == events.len(),
        forall|i: int|
            0 <= i < events.len() ==> #[trigger] flush_run(None, events).1[i] != Turn::<
                Progress<Result<(), E>>,
            >::Done(Progress::Pending),
        forall|i: int|
            0 <= i < events.len() && events[i].0 is Pending ==> #[trigger] flush_run(
                None,
                events,
            ).1[i] == Turn::<Progress<Result<(), E>>>::Done(Progress::Ready(Ok(()))),
    decreases events.len(),
{
    if events.len() > 0 {
        let shorter = events.drop_last();
        lemma_flush_idempotent_when_empty(shorter);
        lemma_flush_of_empty_slot(events.last().0, events.last().1);
        let reports = flush_run(None, events).1;
        let earlier = flush_run(None, shorter).1;
        assert forall|i: int| 0 <= i < events.len() - 1 implies reports[i] == earlier[i]
            && events[i] == shorter[i] by {}
    }
}

/// A flush that reports success leaves nothing buffered; one that suspends
/// leaves the slot, which is then occupied, as it was; and a message leaves
/// the slot only by a send attempt that did not block. Closing and asking
/// for readiness are flushes, so the same holds of them.
pub proof fn lemma_flush_settles_slot<E>(
    slot: Option<Seq<u8>>,
    polled: Readiness<E>,
    outcome: SendOutcome<E>,
)
    ensures
        flush_turn(slot, polled, outcome).1 == Turn::<Progress<Result<(), E>>>::Done(
            Progress::Ready(Ok(())),
        ) ==> flush_turn(slot, polled, outcome).0 is None,
        flush_turn(slot, polled, outcome).1 == Turn::<Progress<Result<(), E>>>::Done(
            Progress::Pending,
        ) ==> slot is Some && flush_turn(slot, polled, outcome).0 == slot,
        polled is Pending && flush_turn(slot, polled, outcome).1 is Done && !(outcome
            is WouldBlock) ==> flush_turn(slot, polled, outcome).0 is None,
        flush_turn(slot, polled, outcome).0 != slot ==> polled is Pending && !(outcome
            is WouldBlock) && flush_turn(slot, polled, outcome).0 is None,
{
}

/// While the socket would block, flushing and closing keep the message:
/// turn after turn the slot holds it unchanged and every turn suspends.
pub proof fn lemma_flush_keeps_message_while_blocked<E>(
    msg: Seq<u8>,
    events: Seq<(Readiness<E>, SendOutcome<E>)>,
)
    requires
        forall|i: int|
            0 <= i < events.len() ==> (#[trigger] events[i]).0 is Pending
                && events[i].1 is WouldBlock,
    ensures
        flush_run(Some(msg), events).0 == Some(msg),
        flush_run(Some(msg), events).1.len() == events.len(),
        forall|i: int|
            0 <= i < events.len() ==> #[trigger] flush_run(Some(msg), events).1[i] == Turn::<
                Progress<Result<(), E>>,
            >::Done(Progress::Pending),
    decreases events.len(),
{
    if events.len() > 0 {
        let shorter = events.drop_last();
        assert forall|i: int| 0 <= i < shorter.len() implies (#[trigger] shorter[i]).0
            is Pending && shorter[i].1 is WouldBlock by {
            assert(shorter[i] == events[i]);
        }
        lemma_flush_keeps_message_while_blocked(msg, shorter);
        assert(events.last() == events[events.len() - 1]);
        let reports = flush_run(Some(msg), events).1;
        let earlier = flush_run(Some(msg), shorter).1;
        assert forall|i: int| 0 <= i < events.len() - 1 implies reports[i] == earlier[i] by {}
    }
}

/// Closing leaves nothing buffered once the socket takes the message: after
/// any number of turns in which the socket would block, each of which
/// suspends, the turn whose send succeeds reports success and empties the
/// slot.
pub proof fn lemma_flush_empties_slot_once_sent<E>(
    msg: Seq<u8>,
    blocked: Seq<(Readiness<E>, SendOutcome<E>)>,
)
    requires
        forall|i: int|
            0 <= i < blocked.len() ==> (#[trigger] blocked[i]).0 is Pending
                && blocked[i].1 is WouldBlock,
    ensures
        ({
            let events = blocked.push((Readiness::Pending, SendOutcome::Sent));
            let (slot, reports) = flush_run(Some(msg), events);
            &&& slot is None
            &&& reports.len() == blocked.len() + 1
            &&& reports.last() == Turn::<Progress<Result<(), E>>>::Done(Progress::Ready(Ok(())))
            &&& forall|i: int|
                0 <= i < blocked.len() ==> #[trigger] reports[i] == Turn::<
                    Progress<Result<(), E>>,
                >::Done(Progress::Pending)
        }),
{
    let events = blocked.push((Readiness::<E>::Pending, SendOutcome::<E>::Sent));
    assert(events.drop_last() =~= blocked);
    assert(events.last() == (Readiness::<E>::Pending, SendOutcome::<E>::Sent));
    lemma_flush_keeps_message_while_blocked(msg, blocked);
    let reports = flush_run(Some(msg), events).1;
    let earlier = flush_run(Some(msg), blocked).1;
    assert forall|i: int| 0 <= i < blocked.len() implies reports[i] == earlier[i] by {}
}

} // verus!
