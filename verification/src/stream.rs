//! The adapter: one registered socket and a one-slot outbound buffer.

use vstd::prelude::*;
use crate::decide::{
    drain_turn, flush_turn, listened, next_step, next_turn, outbound, received, slot_after_send,
};
use crate::outcome::{
    FlushStep, NextStep, Progress, Readiness, RecvOutcome, SendOutcome, Turn,
};
use crate::transport::{poll_readable, recv_nonblocking, send_nonblocking};

verus! {

/// A ZeroMQ socket seen as an endless sequence of inbound messages and a sink
/// of outbound ones, every operation a non-blocking turn.
pub struct ZmqStream {
    aio: async_io::Async<zmq::Socket>,
    buffer: Option<Vec<u8>>,
}

impl ZmqStream {
    /// The message that waits in the outbound slot, if there is one.
    pub closed spec fn pending(&self) -> Option<Seq<u8>> {
        match self.buffer {
            Some(msg) => Some(msg@),
            None => None,
        }
    }

    /// The registered socket that the adapter owns.
    pub closed spec fn handle(&self) -> async_io::Async<zmq::Socket> {
        self.aio
    }

    /// Builds the adapter from the outcome of registering its socket with
    /// the reactor: an adapter with an empty slot around the registered
    /// socket, or the registration's error as it came. The registration
    /// itself, `async_io::Async::new`, is the caller's to make.
    pub fn new(registration: Result<async_io::Async<zmq::Socket>, std::io::Error>) -> (made:
        Result<ZmqStream, std::io::Error>)
        ensures
            match registration {
                Ok(aio) => made matches Ok(stream) && stream.handle() == aio
                    && stream.pending() is None,
                Err(e) => made matches Err(failure) && failure == e,
            },
    {
        match registration {
            Ok(aio) => Ok(ZmqStream { aio, buffer: None }),
            Err(e) => Err(e),
        }
    }

    /// Whether the outbound slot is empty.
    pub fn is_idle(&self) -> (idle: bool)
        ensures
            idle == (self.pending() is None),
    {
        self.buffer.is_none()
    }

    /// The message in the outbound slot, if there is one.
    pub fn buffered(&self) -> (msg: Option<&Vec<u8>>)
        ensures
            match msg {
                Some(bytes) => self.pending() == Some(bytes@),
                None => self.pending() is None,
            },
    {
        self.buffer.as_ref()
    }

    /// Queries the reactor once for readability. `Again` means that a pending
    /// notification was consumed and the query has to be repeated before the
    /// socket is touched; `Done` ends the drain, with the query's error if it
    /// failed. The socket and the slot are left alone. The result is what
    /// `listened` decides for the reactor's answer, and every result can come
    /// back: `listened` says what is returned for each answer.
    pub fn setup_listener(&self, cx: &mut std::task::Context<'_>) -> (turn: Turn<
        Result<(), std::io::Error>,
    >)
        ensures
            exists|polled: Readiness<std::io::Error>| turn == #[trigger] drain_turn(polled),
    {
        let polled = poll_readable(&self.aio, cx);
        listened(polled)
    }

    /// One turn of a poll for the next inbound message: a readiness query,
    /// then what `next_step` decides for its answer, and, where that is a
    /// receive attempt, what `received` makes of the attempt's outcome.
    /// The sequence never ends: `Done(Ready(None))` is not among the results.
    pub fn poll_next(&self, cx: &mut std::task::Context<'_>) -> (turn: Turn<
        Progress<Option<Result<Vec<u8>, std::io::Error>>>,
    >)
        ensures
            exists|polled: Readiness<std::io::Error>, outcome: RecvOutcome<std::io::Error>|
                turn == #[trigger] next_turn(polled, outcome),
            turn != Turn::<Progress<Option<Result<Vec<u8>, std::io::Error>>>>::Done(
                Progress::Ready(None),
            ),
    {
        let polled = poll_readable(&self.aio, cx);
        let ghost asked = polled;
        match next_step(polled) {
            NextStep::Again => {
                assert(Turn::<Progress<Option<Result<Vec<u8>, std::io::Error>>>>::Again
                    == next_turn(asked, RecvOutcome::WouldBlock));
                Turn::Again
            },
            NextStep::Report(report) => {
                assert(Turn::Done(report) == next_turn(asked, RecvOutcome::WouldBlock));
                Turn::Done(report)
            },
            NextStep::Receive => {
                let outcome = recv_nonblocking(&self.aio);
                let ghost got = outcome;
                let turn = Turn::Done(received(outcome));
                assert(turn == next_turn(asked, got));
                turn
            },
        }
    }

    /// Accepts `item` into the outbound slot if the slot is empty. While a
    /// message is still waiting there the slot is left as it is and `item`
    /// is handed back: nothing is ever overwritten.
    pub fn start_send(&mut self, item: Vec<u8>) -> (accepted: Result<(), Vec<u8>>)
        ensures
            final(self).handle() == old(self).handle(),
            old(self).pending() is None ==> accepted is Ok
                && final(self).pending() == Some(item@),
            old(self).pending() is Some ==> accepted == Err::<(), Vec<u8>>(item)
                && final(self).pending() == old(self).pending(),
    {
        if self.buffer.is_some() {
            Err(item)
        } else {
            self.buffer = Some(item);
            Ok(())
        }
    }

    /// Decides what a flush does after one readiness query: it queries again
    /// after a consumed notification, reports the query's error with the
    /// slot untouched, reports success at once for an empty slot, and for an
    /// occupied slot asks for one send attempt of exactly the message that
    /// waits there.
    pub fn flush_step<E>(&self, polled: Readiness<E>) -> (step: FlushStep<'_, E>)
        ensures
            match polled {
                Readiness::Ready => step == FlushStep::<E>::Again,
                Readiness::Failed(e) => step == FlushStep::Report(Progress::Ready(Err(e))),
                Readiness::Pending => match self.pending() {
                    None => step == FlushStep::<E>::Report(Progress::Ready(Ok(()))),
                    Some(msg) => step matches FlushStep::Send(bytes) && bytes@ == msg,
                },
            },
    {
        match polled {
            Readiness::Ready => FlushStep::Again,
            Readiness::Failed(e) => FlushStep::Report(Progress::Ready(Err(e))),
            Readiness::Pending => match &self.buffer {
                None => FlushStep::Report(Progress::Ready(Ok(()))),
                Some(msg) => FlushStep::Send(msg),
            },
        }
    }

    /// Applies the outcome of a send attempt of the buffered message: the
    /// slot is kept only if the socket would block, and the flush reports a
    /// suspension, success, or the attempt's error.
    pub fn sent<E>(&mut self, outcome: SendOutcome<E>) -> (polled: Progress<Result<(), E>>)
        ensures
            polled == outbound(outcome),
            final(self).pending() == slot_after_send(old(self).pending(), outcome),
            final(self).handle() == old(self).handle(),
    {
        match outcome {
            SendOutcome::Sent => {
                self.buffer = None;
                Progress::Ready(Ok(()))
            },
            SendOutcome::WouldBlock => Progress::Pending,
            SendOutcome::Failed(e) => {
                self.buffer = None;
                Progress::Ready(Err(e))
            },
        }
    }

    /// One turn of a flush: a readiness query, then what `flush_step` decides
    /// for its answer, and, where that is a send attempt, what `sent` makes
    /// of the attempt's outcome. With an empty slot the flush succeeds at
    /// once. A message leaves the slot when the socket took it or refused it
    /// for good, and stays while the socket would block.
    pub fn poll_flush(&mut self, cx: &mut std::task::Context<'_>) -> (turn: Turn<
        Progress<Result<(), std::io::Error>>,
    >)
        ensures
            final(self).handle() == old(self).handle(),
            exists|polled: Readiness<std::io::Error>, outcome: SendOutcome<std::io::Error>|
                (final(self).pending(), turn) == #[trigger] flush_turn(
                    old(self).pending(),
                    polled,
                    outcome,
                ),
    {
        let polled = poll_readable(&self.aio, cx);
        let ghost asked = polled;
        let ghost before = self.pending();
        match self.flush_step(polled) {
            FlushStep::Again => {
                assert((before, Turn::<Progress<Result<(), std::io::Error>>>::Again)
                    == flush_turn(before, asked, SendOutcome::Sent));
                Turn::Again
            },
            FlushStep::Report(report) => {
                assert((before, Turn::Done(report)) == flush_turn(
                    before,
                    asked,
                    SendOutcome::Sent,
                ));
                Turn::Done(report)
            },
            FlushStep::Send(msg) => {
                let outcome = send_nonblocking(&self.aio, msg);
                let ghost got = outcome;
                let turn = Turn::Done(self.sent(outcome));
                assert((self.pending(), turn) == flush_turn(before, asked, got));
                turn
            },
        }
    }

    /// The sink is ready for a new message exactly when a flush has nothing
    /// left to do: this is one turn of a flush.
    pub fn poll_ready(&mut self, cx: &mut std::task::Context<'_>) -> (turn: Turn<
        Progress<Result<(), std::io::Error>>,
    >)
        ensures
            final(self).handle() == old(self).handle(),
            exists|polled: Readiness<std::io::Error>, outcome: SendOutcome<std::io::Error>|
                (final(self).pending(), turn) == #[trigger] flush_turn(
                    old(self).pending(),
                    polled,
                    outcome,
                ),
    {
        self.poll_flush(cx)
    }

    /// Closing does nothing beyond draining the slot: this is one turn of a
    /// flush. The socket itself is released when the adapter is dropped.
    pub fn poll_close(&mut self, cx: &mut std::task::Context<'_>) -> (turn: Turn<
        Progress<Result<(), std::io::Error>>,
    >)
        ensures
            final(self).handle() == old(self).handle(),
            exists|polled: Readiness<std::io::Error>, outcome: SendOutcome<std::io::Error>|
                (final(self).pending(), turn) == #[trigger] flush_turn(
                    old(self).pending(),
                    polled,
                    outcome,
                ),
    {
        self.poll_flush(cx)
    }
}

} // verus!
