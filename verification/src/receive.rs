//! The receive direction: read a header, read the payload it announces, hand the payload over
//! for decoding and delivery, and start over, until something fails.
//!
//! The receiver performs no I/O itself. It says what has to happen next as a
//! [`ReceiveAction`]; the driver carries that out and reports back with a [`ReceiveEvent`].
//! A payload is handed over only once all of it has arrived, and the next header is asked for
//! only once the consumer is done with the payload before it.

use vstd::prelude::*;
use crate::Failure;
use crate::frame::{
    decode_frame_header, frame_of, header_value, lemma_frame_integrity,
    lemma_header_of_header_value, wire_of, HEADER_LEN,
};

verus! {

/// What the receive direction is waiting for.
#[derive(Clone, Copy, PartialEq, Eq, Debug)]
pub enum ReceiveState {
    /// The eight bytes of the next header.
    Header,
    /// The payload of the frame whose header announced this many bytes.
    Payload(usize),
    /// The consumer, which is handling the payload handed out last.
    Delivering,
    /// Nothing: the direction is over, with this failure.
    Failed(Failure),
}

/// The receive direction of a session.
#[derive(Clone, Copy, PartialEq, Eq, Debug)]
pub struct Receiver {
    /// Where the direction stands.
    pub state: ReceiveState,
    /// The longest payload that is accepted, in bytes.
    pub max_frame_len: usize,
}

/// What the driver reports to the receiver.
#[derive(PartialEq, Eq, Debug)]
pub enum ReceiveEvent {
    /// The read ended with these bytes: as many as were asked for, or fewer if the stream ended
    /// first.
    Bytes(Vec<u8>),
    /// The read failed.
    ReadFailed,
    /// The payload was decoded and the consumer is done with the value.
    Delivered,
    /// The payload could not be decoded.
    DecodeFailed,
}

/// What the receiver asks the driver to do next.
#[derive(PartialEq, Eq, Debug)]
pub enum ReceiveAction {
    /// Read exactly this many bytes from the stream.
    Read(usize),
    /// Decode this payload and hand the value to the consumer.
    Deliver(Vec<u8>),
    /// Stop: the direction is over, with this failure.
    Stop(Failure),
}

/// A [`ReceiveEvent`] as a mathematical value.
pub enum ReceiveEventView {
    Bytes(Seq<u8>),
    ReadFailed,
    Delivered,
    DecodeFailed,
}

/// A [`ReceiveAction`] as a mathematical value.
pub enum ReceiveActionView {
    Read(usize),
    Deliver(Seq<u8>),
    Stop(Failure),
}

impl View for ReceiveEvent {
    type V = ReceiveEventView;

    open spec fn view(&self) -> ReceiveEventView {
        match *self {
            ReceiveEvent::Bytes(bytes) => ReceiveEventView::Bytes(bytes@),
            ReceiveEvent::ReadFailed => ReceiveEventView::ReadFailed,
            ReceiveEvent::Delivered => ReceiveEventView::Delivered,
            ReceiveEvent::DecodeFailed => ReceiveEventView::DecodeFailed,
        }
    }
}

impl View for ReceiveAction {
    type V = ReceiveActionView;

    open spec fn view(&self) -> ReceiveActionView {
        match *self {
            ReceiveAction::Read(len) => ReceiveActionView::Read(len),
            ReceiveAction::Deliver(payload) => ReceiveActionView::Deliver(payload@),
            ReceiveAction::Stop(failure) => ReceiveActionView::Stop(failure),
        }
    }
}

/// The receiver's transition rule: the receiver that follows `receiver` on `event`, and the
/// action that the driver is asked for.
///
/// A read that brings fewer or more bytes than were asked for counts as a failed connection.
/// A failed receiver stays as it is and answers every event with `Stop`. An event that the
/// state was not waiting for ends the direction with [`Failure::OutOfTurn`].
pub open spec fn receive_next(receiver: Receiver, event: ReceiveEventView) -> (
    Receiver,
    ReceiveActionView,
) {
    match (receiver.state, event) {
        (ReceiveState::Failed(failure), _) => (receiver, ReceiveActionView::Stop(failure)),
        (ReceiveState::Header, ReceiveEventView::Bytes(bytes)) => {
            if bytes.len() != 8 {
                receive_end(receiver, Failure::Connection)
            } else if header_value(bytes) > receiver.max_frame_len {
                receive_end(receiver, Failure::FrameTooLarge)
            } else {
                (
                    Receiver {
                        state: ReceiveState::Payload(header_value(bytes) as usize),
                        max_frame_len: receiver.max_frame_len,
                    },
                    ReceiveActionView::Read(header_value(bytes) as usize),
                )
            }
        },
        (ReceiveState::Payload(len), ReceiveEventView::Bytes(bytes)) => {
            if bytes.len() != len {
                receive_end(receiver, Failure::Connection)
            } else {
                (
                    Receiver {
                        state: ReceiveState::Delivering,
                        max_frame_len: receiver.max_frame_len,
                    },
                    ReceiveActionView::Deliver(bytes),
                )
            }
        },
        (ReceiveState::Header, ReceiveEventView::ReadFailed) => receive_end(
            receiver,
            Failure::Connection,
        ),
        (ReceiveState::Payload(_), ReceiveEventView::ReadFailed) => receive_end(
            receiver,
            Failure::Connection,
        ),
        (ReceiveState::Delivering, ReceiveEventView::Delivered) => (
            Receiver { state: ReceiveState::Header, max_frame_len: receiver.max_frame_len },
            ReceiveActionView::Read(HEADER_LEN),
        ),
        (ReceiveState::Delivering, ReceiveEventView::DecodeFailed) => receive_end(
            receiver,
            Failure::Decode,
        ),
        _ => receive_end(receiver, Failure::OutOfTurn),
    }
}

/// The end of the direction with `failure`.
pub open spec fn receive_end(receiver: Receiver, failure: Failure) -> (
    Receiver,
    ReceiveActionView,
) {
    (
        Receiver { state: ReceiveState::Failed(failure), max_frame_len: receiver.max_frame_len },
        ReceiveActionView::Stop(failure),
    )
}

/// A receiver at its start, which accepts payloads of up to `max_frame_len` bytes.
pub open spec fn receiver_at_start(max_frame_len: usize) -> Receiver {
    Receiver { state: ReceiveState::Header, max_frame_len }
}

/// The receiver that `receiver` becomes on `events`, taken in turn, and the actions that it
/// asks for on the way.
pub open spec fn receive_trace(receiver: Receiver, events: Seq<ReceiveEventView>) -> (
    Receiver,
    Seq<ReceiveActionView>,
)
    decreases events.len(),
{
    if events.len() == 0 {
        (receiver, Seq::empty())
    } else {
        let (next, action) = receive_next(receiver, events.first());
        let (last, actions) = receive_trace(next, events.drop_first());
        (last, seq![action] + actions)
    }
}

/// What a receiver hands to the consumer, and the failure it ends with, when it stands as
/// `receiver` with `action` pending and all goes well around it but for the stream running
/// out: the stream holds `stream` and then ends, every payload decodes, and the consumer takes
/// every value. A read of more bytes than are left fails.
pub open spec fn receive_run(receiver: Receiver, action: ReceiveActionView, stream: Seq<u8>) -> (
    Seq<Seq<u8>>,
    Failure,
)
    decreases stream.len(), receive_rank(receiver, action),
{
    match action {
        ReceiveActionView::Stop(failure) => (Seq::empty(), failure),
        ReceiveActionView::Read(len) => {
            if len <= stream.len() {
                let (next, action) = receive_next(
                    receiver,
                    ReceiveEventView::Bytes(stream.take(len as int)),
                );
                receive_run(next, action, stream.skip(len as int))
            } else {
                let (next, action) = receive_next(receiver, ReceiveEventView::ReadFailed);
                receive_run(next, action, stream)
            }
        },
        ReceiveActionView::Deliver(payload) => {
            let (next, action) = receive_next(receiver, ReceiveEventView::Delivered);
            let (delivered, failure) = receive_run(next, action, stream);
            (seq![payload] + delivered, failure)
        },
    }
}

/// A measure that falls with every step of a run that takes no bytes from the stream.
pub open spec fn receive_rank(receiver: Receiver, action: ReceiveActionView) -> nat {
    match action {
        ReceiveActionView::Stop(_) => 0,
        _ => match receiver.state {
            ReceiveState::Failed(_) => 1,
            ReceiveState::Header => 2,
            ReceiveState::Delivering => 3,
            ReceiveState::Payload(_) => 4,
        },
    }
}

/// Once a receiver has failed, it asks for nothing more: whatever is reported to it, it stays
/// failed in the same way and answers `Stop` each time, so nothing is handed to the consumer.
pub proof fn lemma_failed_receiver_only_stops(
    failure: Failure,
    max_frame_len: usize,
    events: Seq<ReceiveEventView>,
)
    ensures
        receive_trace(Receiver { state: ReceiveState::Failed(failure), max_frame_len }, events)
            == (
            Receiver { state: ReceiveState::Failed(failure), max_frame_len },
            Seq::new(events.len(), |i: int| ReceiveActionView::Stop(failure)),
        ),
    decreases events.len(),
{
    if events.len() > 0 {
        lemma_failed_receiver_only_stops(failure, max_frame_len, events.drop_first());
    }
}

/// A header that does not arrive in full is the end of the receive direction: whether the
/// read fails or brings fewer than eight bytes, the receiver fails with
/// [`Failure::Connection`], and whatever is reported to it afterwards, it hands nothing to the
/// consumer.
pub proof fn lemma_short_header_ends_reception(
    max_frame_len: usize,
    event: ReceiveEventView,
    events: Seq<ReceiveEventView>,
)
    requires
        event is ReadFailed || (event matches ReceiveEventView::Bytes(bytes) && bytes.len() < 8),
    ensures
        receive_next(receiver_at_start(max_frame_len), event) == receive_end(
            receiver_at_start(max_frame_len),
            Failure::Connection,
        ),
        receive_trace(receiver_at_start(max_frame_len), seq![event] + events) == (
            Receiver { state: ReceiveState::Failed(Failure::Connection), max_frame_len },
            Seq::new(events.len() + 1, |i: int| ReceiveActionView::Stop(Failure::Connection)),
        ),
{
    let all = seq![event] + events;
    assert(all.drop_first() =~= events);
    lemma_failed_receiver_only_stops(Failure::Connection, max_frame_len, events);
}

/// What a fresh receiver does with the front of a stream, frame by frame: it fails with
/// [`Failure::Connection`] if the stream ends inside the header or inside the payload that the
/// header announces, and with [`Failure::FrameTooLarge`] if the header announces more than the
/// receiver accepts; otherwise it hands over the payload and goes on, as a fresh receiver,
/// with what follows the frame.
pub proof fn lemma_receive_run_first_frame(max_frame_len: usize, stream: Seq<u8>)
    ensures
        receive_run(
            receiver_at_start(max_frame_len),
            ReceiveActionView::Read(HEADER_LEN),
            stream,
        ) == if stream.len() < 8 {
            (Seq::<Seq<u8>>::empty(), Failure::Connection)
        } else if header_value(stream.take(8)) > max_frame_len {
            (Seq::<Seq<u8>>::empty(), Failure::FrameTooLarge)
        } else if header_value(stream.take(8)) > stream.len() - 8 {
            (Seq::<Seq<u8>>::empty(), Failure::Connection)
        } else {
            let len = header_value(stream.take(8)) as int;
            let (delivered, failure) = receive_run(
                receiver_at_start(max_frame_len),
                ReceiveActionView::Read(HEADER_LEN),
                stream.skip(8).skip(len),
            );
            (seq![stream.skip(8).take(len)] + delivered, failure)
        },
{
    let start = receiver_at_start(max_frame_len);
    let failed = Receiver { state: ReceiveState::Failed(Failure::Connection), max_frame_len };
    let stop = ReceiveActionView::Stop(Failure::Connection);
    if stream.len() < 8 {
        // The header cannot be read.
        assert(receive_run(failed, stop, stream).0 == Seq::<Seq<u8>>::empty());
    } else {
        // The header is read, and the run goes on with what the header asks for.
        let body = stream.skip(8);
        let (next, action) = receive_next(start, ReceiveEventView::Bytes(stream.take(8)));
        assert(receive_run(start, ReceiveActionView::Read(HEADER_LEN), stream) == receive_run(
            next,
            action,
            body,
        ));
        if header_value(stream.take(8)) <= max_frame_len {
            let len = header_value(stream.take(8)) as int;
            if len <= body.len() {
                // The payload is read and handed over, and the run starts over behind it.
                let delivering = Receiver { state: ReceiveState::Delivering, max_frame_len };
                let deliver = ReceiveActionView::Deliver(body.take(len));
                assert(receive_run(next, action, body) == receive_run(
                    delivering,
                    deliver,
                    body.skip(len),
                ));
            } else {
                // The payload cannot be read.
                assert(receive_run(next, action, body) == receive_run(failed, stop, body));
            }
        }
    }
}

/// Values arrive in the order in which they were framed: a receiver that starts fresh on a
/// stream that holds the frames of `payloads`, none longer than it accepts, and then ends,
/// hands over exactly these payloads, each whole and in this order, and then fails with
/// [`Failure::Connection`] on the missing next header.
pub proof fn lemma_receive_run_in_order(max_frame_len: usize, payloads: Seq<Seq<u8>>)
    requires
        forall|i: int| 0 <= i < payloads.len() ==> (#[trigger] payloads[i]).len() <= max_frame_len,
    ensures
        receive_run(
            receiver_at_start(max_frame_len),
            ReceiveActionView::Read(HEADER_LEN),
            wire_of(payloads),
        ) == (payloads, Failure::Connection),
    decreases payloads.len(),
{
    let stream = wire_of(payloads);
    lemma_receive_run_first_frame(max_frame_len, stream);
    if payloads.len() > 0 {
        let payload = payloads.first();
        let rest = payloads.drop_first();
        let len = payload.len() as int;
        // The stream is the frame of the first payload, then the frames of the others.
        lemma_frame_integrity(payload);
        assert(stream.take(8) =~= frame_of(payload).take(8));
        assert(stream.skip(8).take(len) =~= payload);
        assert(stream.skip(8).skip(len) =~= wire_of(rest));
        lemma_receive_run_in_order(max_frame_len, rest);
        assert(seq![payload] + rest =~= payloads);
    }
}

/// No part of a frame is ever handed over: whatever bytes the stream holds before it ends,
/// the payloads that a fresh receiver hands to the consumer are those of whole frames that
/// stand at the front of the stream, in their order, none longer than the receiver accepts.
/// The receiver then fails, on a frame that is cut short or on a header that announces too
/// much.
pub proof fn lemma_receive_run_whole_frames(max_frame_len: usize, stream: Seq<u8>)
    ensures
        ({
            let (delivered, failure) = receive_run(
                receiver_at_start(max_frame_len),
                ReceiveActionView::Read(HEADER_LEN),
                stream,
            );
            &&& wire_of(delivered).is_prefix_of(stream)
            &&& forall|i: int|
                0 <= i < delivered.len() ==> (#[trigger] delivered[i]).len() <= max_frame_len
            &&& failure == Failure::Connection || failure == Failure::FrameTooLarge
        }),
    decreases stream.len(),
{
    lemma_receive_run_first_frame(max_frame_len, stream);
    if stream.len() >= 8 && header_value(stream.take(8)) <= max_frame_len && header_value(
        stream.take(8),
    ) <= stream.len() - 8 {
        let header = stream.take(8);
        let len = header_value(header) as int;
        let payload = stream.skip(8).take(len);
        let rest = stream.skip(8).skip(len);
        lemma_receive_run_whole_frames(max_frame_len, rest);
        let delivered = receive_run(
            receiver_at_start(max_frame_len),
            ReceiveActionView::Read(HEADER_LEN),
            rest,
        ).0;
        let all = seq![payload] + delivered;
        // The frame of the payload is what stands at the front of the stream.
        lemma_header_of_header_value(header);
        assert(frame_of(payload) == header + payload);
        assert(stream =~= frame_of(payload) + rest);
        // What is handed over after it are whole frames at the front of the rest.
        assert(all.drop_first() =~= delivered);
        assert(wire_of(all) == frame_of(payload) + wire_of(delivered));
        assert forall|i: int| 0 <= i < all.len() implies (#[trigger] all[i]).len()
            <= max_frame_len by {
            if i > 0 {
                assert(all[i] == delivered[i - 1]);
            }
        }
    }
}

impl Receiver {
    /// A receiver at its start, which accepts payloads of up to `max_frame_len` bytes, with the
    /// first thing it asks for: the bytes of a header.
    pub fn new(max_frame_len: usize) -> (start: (Receiver, ReceiveAction))
        ensures
            start.0 == receiver_at_start(max_frame_len),
            start.1@ == ReceiveActionView::Read(HEADER_LEN),
    {
        (Receiver { state: ReceiveState::Header, max_frame_len }, ReceiveAction::Read(HEADER_LEN))
    }

    /// Takes in what the driver reports and says what to do next.
    pub fn step(&mut self, event: ReceiveEvent) -> (action: ReceiveAction)
        ensures
            (*final(self), action@) == receive_next(*old(self), event@),
    {
        let (state, action) = match (self.state, event) {
            (ReceiveState::Failed(failure), _) => (self.state, ReceiveAction::Stop(failure)),
            (ReceiveState::Header, ReceiveEvent::Bytes(bytes)) => {
                if bytes.len() != HEADER_LEN {
                    Self::end(Failure::Connection)
                } else {
                    let header: [u8; 8] = [
                        bytes[0],
                        bytes[1],
                        bytes[2],
                        bytes[3],
                        bytes[4],
                        bytes[5],
                        bytes[6],
                        bytes[7],
                    ];
                    let len = decode_frame_header(&header);
                    if len > self.max_frame_len as u64 {
                        Self::end(Failure::FrameTooLarge)
                    } else {
                        (ReceiveState::Payload(len as usize), ReceiveAction::Read(len as usize))
                    }
                }
            },
            (ReceiveState::Payload(len), ReceiveEvent::Bytes(bytes)) => {
                if bytes.len() != len {
                    Self::end(Failure::Connection)
                } else {
                    (ReceiveState::Delivering, ReceiveAction::Deliver(bytes))
                }
            },
            (ReceiveState::Header, ReceiveEvent::ReadFailed) => Self::end(Failure::Connection),
            (ReceiveState::Payload(_), ReceiveEvent::ReadFailed) => Self::end(Failure::Connection),
            (ReceiveState::Delivering, ReceiveEvent::Delivered) => (
                ReceiveState::Header,
                ReceiveAction::Read(HEADER_LEN),
            ),
            (ReceiveState::Delivering, ReceiveEvent::DecodeFailed) => Self::end(Failure::Decode),
            _ => Self::end(Failure::OutOfTurn),
        };
        self.state = state;
        action
    }

    /// The failure that ended the direction, once it is over.
    pub fn failure(&self) -> (failure: Option<Failure>)
        ensures
            failure == match self.state {
                ReceiveState::Failed(failure) => Some(failure),
                _ => None,
            },
    {
        match self.state {
            ReceiveState::Failed(failure) => Some(failure),
            _ => None,
        }
    }

    fn end(failure: Failure) -> (end: (ReceiveState, ReceiveAction))
        ensures
            end.0 == ReceiveState::Failed(failure),
            end.1@ == ReceiveActionView::Stop(failure),
    {
        (ReceiveState::Failed(failure), ReceiveAction::Stop(failure))
    }
}

} // verus!
