//! A cooperative, non-blocking adapter over a ZeroMQ socket.
//!
//! A [`ZmqStream`] owns one socket registered with the `async-io` reactor and
//! a one-slot outbound buffer. Every operation is a single non-blocking turn:
//! it either finishes, suspends, or asks to be run again because a readiness
//! notification was consumed and the reactor has to be queried once more.
//!
//! The decisions are pure functions of what the reactor and the socket
//! answered ([`decide`]); the adapter ([`stream`]) makes the calls and applies
//! them; [`laws`] states what follows for whole runs of polls.

pub mod outcome;
pub mod decide;
pub mod transport;
pub mod stream;
pub mod laws;

pub use outcome::{FlushStep, NextStep, Progress, Readiness, RecvOutcome, SendOutcome, Turn};
pub use stream::ZmqStream;
