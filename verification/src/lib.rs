//! A duplex message-framing protocol for one byte-stream connection.
//!
//! Two sides exchange messages over a stream of bytes. Each message is encoded, prefixed with
//! the length of its encoding, and written to the stream; on the other side, frames are read
//! one by one, decoded, and handed to a consumer. The two directions of a connection run side
//! by side, and the first of them to finish, for whatever reason, ends the session.
//!
//! This crate holds the protocol and nothing else. It never touches a socket, a codec, a
//! producer or a consumer: a [`session::Session`] is told what happened, as an event, and
//! answers with what has to happen next, as an action. The code around it, the driver,
//! carries the actions out and reports back. What the session decides is proved of its
//! transition rule, for every event in every state.
//!
//! - [`frame`] is the wire format.
//! - [`transmit`] and [`receive`] are the two directions.
//! - [`session`] runs them together.

use vstd::prelude::*;
use std::future::Future;

pub mod frame;
pub mod receive;
pub mod session;
pub mod transmit;

verus! {

/// Why a direction of a session, and with it the session, came to an end.
#[derive(Clone, Copy, PartialEq, Eq, Debug)]
pub enum Failure {
    /// Reading from or writing to the stream failed, or the stream ended inside a frame.
    Connection,
    /// An outgoing value could not be encoded.
    Encode,
    /// An incoming payload could not be decoded.
    Decode,
    /// A header announced a payload longer than the receiver accepts.
    FrameTooLarge,
    /// The driver reported something that the direction was not waiting for.
    OutOfTurn,
}

/// A future that may be moved between threads and resolves to an `O`: what an asynchronous
/// driver gets from the producer and from the consumer of a session.
pub trait SendFut<O>: Future<Output = O> + Send {}

impl<O, Y: Future<Output = O> + Send> SendFut<O> for Y {}

/// The producer of an asynchronous driver: a callable whose future resolves to the next
/// outgoing message, or to a value that stands for "no more messages".
pub trait GetOutgoing<O, Y: SendFut<O>>: FnMut() -> Y {}

impl<O, Y: SendFut<O>, F: FnMut() -> Y> GetOutgoing<O, Y> for F {}

/// The consumer of an asynchronous driver: a callable that takes one incoming message and
/// whose future resolves once the message has been handled.
pub trait HandleIncoming<I, Y: SendFut<()>>: FnMut(I) -> Y {}

impl<I, Y: SendFut<()>, F: FnMut(I) -> Y> HandleIncoming<I, Y> for F {}

} // verus!
