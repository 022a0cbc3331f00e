//! The plain values that cross the boundary between the adapter and the
//! reactor, the socket and the caller.

use vstd::prelude::*;

verus! {

/// What a finished poll reports: a value, or a suspension for which a wake-up
/// has been registered.
#[derive(Debug)]
pub enum Progress<T> {
    Ready(T),
    Pending,
}

/// What one turn of a poll reports.
///
/// `Again` means that a readiness notification was consumed and nothing else
/// was done: the socket has not been touched, and the same operation has to be
/// run again at once. `Done` carries the result of the poll.
#[derive(Debug)]
pub enum Turn<T> {
    Again,
    Done(T),
}

/// One answer of the reactor to "is the socket readable?".
#[derive(Debug)]
pub enum Readiness<E> {
    /// A readiness notification was pending and has now been consumed.
    Ready,
    /// Nothing is pending; the caller's wake-up is registered.
    Pending,
    /// The query itself failed.
    Failed(E),
}

/// The outcome of one non-blocking receive attempt.
#[derive(Debug)]
pub enum RecvOutcome<E> {
    /// A whole message was taken from the socket.
    Message(Vec<u8>),
    /// No message is available right now.
    WouldBlock,
    /// The attempt failed for another reason.
    Failed(E),
}

/// The outcome of one non-blocking send attempt.
#[derive(Debug)]
pub enum SendOutcome<E> {
    /// The socket accepted the message.
    Sent,
    /// The socket cannot take a message right now.
    WouldBlock,
    /// The attempt failed for another reason.
    Failed(E),
}

/// What a poll of the inbound side does after one readiness query.
#[derive(Debug)]
pub enum NextStep<E> {
    /// A notification was consumed: query again, the socket stays untouched.
    Again,
    /// The poll ends here with this report, the socket untouched.
    Report(Progress<Option<Result<Vec<u8>, E>>>),
    /// The drain ended with success: make one receive attempt.
    Receive,
}

/// What a flush does after one readiness query.
#[derive(Debug)]
pub enum FlushStep<'a, E> {
    /// A notification was consumed: query again, the socket stays untouched.
    Again,
    /// The flush ends here with this report, the socket untouched.
    Report(Progress<Result<(), E>>),
    /// The drain ended with success and the slot is occupied: make one send
    /// attempt of this message, which is the one in the slot.
    Send(&'a Vec<u8>),
}

} // verus!
