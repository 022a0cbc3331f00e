//! The calls into `async-io` and `zmq`. Their contracts are taken on trust.

use vstd::prelude::*;
use crate::outcome::{Readiness, RecvOutcome, SendOutcome};

verus! {

/// `std::io::Error`, carried through unread.
#[verifier::external_type_specification]
#[verifier::external_body]
pub struct ExIoError(std::io::Error);

/// `std::task::Context`, handed to the reactor unread.
#[verifier::external_type_specification]
#[verifier::external_body]
pub struct ExContext<'a>(std::task::Context<'a>);

/// `zmq::Socket`, the transport's handle.
#[verifier::external_type_specification]
#[verifier::external_body]
pub struct ExSocket(zmq::Socket);

/// `async_io::Async`, a handle registered with the reactor.
#[verifier::external_type_specification]
#[verifier::external_body]
#[verifier::reject_recursive_types(T)]
pub struct ExAsync<T>(async_io::Async<T>);

/// Calls `async_io::Async::poll_readable` once and reports its answer.
/// `Poll::Ready(Ok(()))` becomes `Ready`, `Poll::Ready(Err(e))` becomes
/// `Failed(e)` and `Poll::Pending` becomes `Pending`. The answer depends on
/// the reactor, so nothing is claimed of it.
#[verifier::external_body]
pub(crate) fn poll_readable(
    aio: &async_io::Async<zmq::Socket>,
    cx: &mut std::task::Context<'_>,
) -> (polled: Readiness<std::io::Error>) {
    match aio.poll_readable(cx) {
        std::task::Poll::Ready(Ok(())) => Readiness::Ready,
        std::task::Poll::Ready(Err(e)) => Readiness::Failed(e),
        std::task::Poll::Pending => Readiness::Pending,
    }
}

/// Calls `zmq::Socket::recv_bytes` with `zmq::DONTWAIT`. The error
/// `zmq::Error::EAGAIN` becomes `WouldBlock`; any other error is converted
/// with zmq's `From<zmq::Error> for std::io::Error`. The outcome depends on
/// the socket, so nothing is claimed of it.
#[verifier::external_body]
pub(crate) fn recv_nonblocking(aio: &async_io::Async<zmq::Socket>) -> (outcome: RecvOutcome<
    std::io::Error,
>) {
    match aio.as_ref().recv_bytes(zmq::DONTWAIT) {
        Ok(bytes) => RecvOutcome::Message(bytes),
        Err(zmq::Error::EAGAIN) => RecvOutcome::WouldBlock,
        Err(e) => RecvOutcome::Failed(e.into()),
    }
}

/// Calls `zmq::Socket::send` on a copy of `msg` with `zmq::DONTWAIT`. The
/// error `zmq::Error::EAGAIN` becomes `WouldBlock`; any other error is
/// converted with zmq's `From<zmq::Error> for std::io::Error`. The outcome
/// depends on the socket, so nothing is claimed of it.
#[verifier::external_body]
pub(crate) fn send_nonblocking(aio: &async_io::Async<zmq::Socket>, msg: &Vec<u8>) -> (outcome:
    SendOutcome<std::io::Error>) {
    match aio.as_ref().send(msg.clone(), zmq::DONTWAIT) {
        Ok(()) => SendOutcome::Sent,
        Err(zmq::Error::EAGAIN) => SendOutcome::WouldBlock,
        Err(e) => SendOutcome::Failed(e.into()),
    }
}

} // verus!
