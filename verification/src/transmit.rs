//! The transmit direction: pull a value from the producer, frame its encoding, write the frame,
//! and start over, until the producer has no more values or something fails.
//!
//! The transmitter performs no I/O itself. It says what has to happen next as a
//! [`TransmitAction`]; the driver carries that out and reports back with a [`TransmitEvent`].
//! No failure is tried again: whichever comes first ends the direction.

use vstd::prelude::*;
use crate::Failure;
use crate::frame::{encode_frame, frame_of, wire_of};

verus! {

/// Where the transmit direction stands.
#[derive(Clone, Copy, PartialEq, Eq, Debug)]
pub enum Transmitter {
    /// Waiting for the producer's next value.
    Pulling,
    /// Waiting for the frame handed out last to be written in full.
    Writing,
    /// Over: gracefully once the producer ran dry, or with the failure that ended it.
    Finished(Result<(), Failure>),
}

/// What the driver reports to the transmitter.
#[derive(PartialEq, Eq, Debug)]
pub enum TransmitEvent {
    /// The producer gave a value, and these bytes are its encoding.
    Produced(Vec<u8>),
    /// The producer gave a value that could not be encoded.
    EncodeFailed,
    /// The producer has no more values.
    Exhausted,
    /// The frame was written in full.
    Written,
    /// Writing the frame failed.
    WriteFailed,
}

/// What the transmitter asks the driver to do next.
#[derive(PartialEq, Eq, Debug)]
pub enum TransmitAction {
    /// Ask the producer for its next value and encode it.
    Pull,
    /// Write all of these bytes to the stream.
    Write(Vec<u8>),
    /// Stop: the direction is over, with this outcome.
    Stop(Result<(), Failure>),
}

/// A [`TransmitEvent`] as a mathematical value.
pub enum TransmitEventView {
    Produced(Seq<u8>),
    EncodeFailed,
    Exhausted,
    Written,
    WriteFailed,
}

/// A [`TransmitAction`] as a mathematical value.
pub enum TransmitActionView {
    Pull,
    Write(Seq<u8>),
    Stop(Result<(), Failure>),
}

impl View for TransmitEvent {
    type V = TransmitEventView;

    open spec fn view(&self) -> TransmitEventView {
        match *self {
            TransmitEvent::Produced(payload) => TransmitEventView::Produced(payload@),
            TransmitEvent::EncodeFailed => TransmitEventView::EncodeFailed,
            TransmitEvent::Exhausted => TransmitEventView::Exhausted,
            TransmitEvent::Written => TransmitEventView::Written,
            TransmitEvent::WriteFailed => TransmitEventView::WriteFailed,
        }
    }
}

impl View for TransmitAction {
    type V = TransmitActionView;

    open spec fn view(&self) -> TransmitActionView {
        match *self {
            TransmitAction::Pull => TransmitActionView::Pull,
            TransmitAction::Write(frame) => TransmitActionView::Write(frame@),
            TransmitAction::Stop(outcome) => TransmitActionView::Stop(outcome),
        }
    }
}

/// The transmitter's transition rule: the state that follows `state` on `event`, and the action
/// that the driver is asked for.
///
/// A finished transmitter stays as it is and answers every event with `Stop`. An event that
/// the state was not waiting for ends the direction with [`Failure::OutOfTurn`].
pub open spec fn transmit_next(state: Transmitter, event: TransmitEventView) -> (
    Transmitter,
    TransmitActionView,
) {
    match (state, event) {
        (Transmitter::Finished(outcome), _) => (state, TransmitActionView::Stop(outcome)),
        (Transmitter::Pulling, TransmitEventView::Produced(payload)) => (
            Transmitter::Writing,
            TransmitActionView::Write(frame_of(payload)),
        ),
        (Transmitter::Pulling, TransmitEventView::Exhausted) => transmit_end(Ok(())),
        (Transmitter::Pulling, TransmitEventView::EncodeFailed) => transmit_end(
            Err(Failure::Encode),
        ),
        (Transmitter::Writing, TransmitEventView::Written) => (
            Transmitter::Pulling,
            TransmitActionView::Pull,
        ),
        (Transmitter::Writing, TransmitEventView::WriteFailed) => transmit_end(
            Err(Failure::Connection),
        ),
        _ => transmit_end(Err(Failure::OutOfTurn)),
    }
}

/// The end of the direction with `outcome`.
pub open spec fn transmit_end(outcome: Result<(), Failure>) -> (Transmitter, TransmitActionView) {
    (Transmitter::Finished(outcome), TransmitActionView::Stop(outcome))
}

/// The state that a transmitter in `state` reaches on `events`, taken in turn, and the actions
/// that it asks for on the way.
pub open spec fn transmit_trace(state: Transmitter, events: Seq<TransmitEventView>) -> (
    Transmitter,
    Seq<TransmitActionView>,
)
    decreases events.len(),
{
    if events.len() == 0 {
        (state, Seq::empty())
    } else {
        let (next, action) = transmit_next(state, events.first());
        let (last, actions) = transmit_trace(next, events.drop_first());
        (last, seq![action] + actions)
    }
}

/// What a transmitter writes, and how it ends, when it is in `state` with `action` pending and
/// all goes well around it: the producer holds the values that encode to `outgoing` and then
/// runs dry, and every write succeeds.
pub open spec fn transmit_run(
    state: Transmitter,
    action: TransmitActionView,
    outgoing: Seq<Seq<u8>>,
) -> (Seq<u8>, Result<(), Failure>)
    decreases outgoing.len(), transmit_rank(action),
{
    match action {
        TransmitActionView::Stop(outcome) => (Seq::empty(), outcome),
        TransmitActionView::Pull => {
            if outgoing.len() == 0 {
                let (next, action) = transmit_next(state, TransmitEventView::Exhausted);
                transmit_run(next, action, outgoing)
            } else {
                let (next, action) = transmit_next(
                    state,
                    TransmitEventView::Produced(outgoing.first()),
                );
                transmit_run(next, action, outgoing.drop_first())
            }
        },
        TransmitActionView::Write(frame) => {
            let (next, action) = transmit_next(state, TransmitEventView::Written);
            let (written, outcome) = transmit_run(next, action, outgoing);
            (frame + written, outcome)
        },
    }
}

/// A measure that falls with every step of a run that takes no value from the producer.
pub open spec fn transmit_rank(action: TransmitActionView) -> nat {
    match action {
        TransmitActionView::Stop(_) => 0,
        TransmitActionView::Pull => 1,
        TransmitActionView::Write(_) => 2,
    }
}

/// Once a transmitter has finished, it asks for nothing more: whatever is reported to it, it
/// stays finished with the same outcome and answers `Stop` each time.
pub proof fn lemma_finished_transmitter_only_stops(
    outcome: Result<(), Failure>,
    events: Seq<TransmitEventView>,
)
    ensures
        transmit_trace(Transmitter::Finished(outcome), events) == (
            Transmitter::Finished(outcome),
            Seq::new(events.len(), |i: int| TransmitActionView::Stop(outcome)),
        ),
    decreases events.len(),
{
    if events.len() > 0 {
        lemma_finished_transmitter_only_stops(outcome, events.drop_first());
    }
}

/// A failed write is the end of the transmit direction: the transmitter finishes with
/// [`Failure::Connection`], and whatever is reported to it afterwards, it never pulls another
/// value from the producer nor writes anything.
pub proof fn lemma_failed_write_ends_transmission(events: Seq<TransmitEventView>)
    ensures
        transmit_next(Transmitter::Writing, TransmitEventView::WriteFailed) == transmit_end(
            Err(Failure::Connection),
        ),
        transmit_trace(Transmitter::Writing, seq![TransmitEventView::WriteFailed] + events) == (
            Transmitter::Finished(Err(Failure::Connection)),
            Seq::new(
                events.len() + 1,
                |i: int| TransmitActionView::Stop(Err(Failure::Connection)),
            ),
        ),
{
    let all = seq![TransmitEventView::WriteFailed] + events;
    assert(all.drop_first() =~= events);
    lemma_finished_transmitter_only_stops(Err(Failure::Connection), events);
}

/// Values leave in the order in which the producer gave them: a transmitter that starts fresh
/// and meets no failure writes the frames of the payloads it was given, one after the other
/// and nothing else, and finishes gracefully when the producer runs dry.
pub proof fn lemma_transmit_run_in_order(outgoing: Seq<Seq<u8>>)
    ensures
        transmit_run(Transmitter::Pulling, TransmitActionView::Pull, outgoing) == (
            wire_of(outgoing),
            Ok::<(), Failure>(()),
        ),
    decreases outgoing.len(),
{
    if outgoing.len() == 0 {
        // The producer is dry at once, and the transmitter stops without a write.
        assert(transmit_run(
            Transmitter::Finished(Ok(())),
            TransmitActionView::Stop(Ok(())),
            outgoing,
        ).0 == Seq::<u8>::empty());
    } else {
        // The first payload is framed and written, and the run starts over with the others.
        let rest = outgoing.drop_first();
        let frame = frame_of(outgoing.first());
        lemma_transmit_run_in_order(rest);
        assert(transmit_run(Transmitter::Writing, TransmitActionView::Write(frame), rest).0
            == frame + wire_of(rest));
    }
}

impl Transmitter {
    /// A transmitter at its start, with the first thing it asks for: a value to send.
    pub fn new() -> (start: (Transmitter, TransmitAction))
        ensures
            start.0 == Transmitter::Pulling,
            start.1@ == TransmitActionView::Pull,
    {
        (Transmitter::Pulling, TransmitAction::Pull)
    }

    /// Takes in what the driver reports and says what to do next.
    pub fn step(&mut self, event: TransmitEvent) -> (action: TransmitAction)
        ensures
            (*final(self), action@) == transmit_next(*old(self), event@),
    {
        let (next, action) = match (*self, event) {
            (Transmitter::Finished(outcome), _) => (*self, TransmitAction::Stop(outcome)),
            (Transmitter::Pulling, TransmitEvent::Produced(payload)) => (
                Transmitter::Writing,
                TransmitAction::Write(encode_frame(payload.as_slice())),
            ),
            (Transmitter::Pulling, TransmitEvent::Exhausted) => Self::end(Ok(())),
            (Transmitter::Pulling, TransmitEvent::EncodeFailed) => Self::end(Err(Failure::Encode)),
            (Transmitter::Writing, TransmitEvent::Written) => (
                Transmitter::Pulling,
                TransmitAction::Pull,
            ),
            (Transmitter::Writing, TransmitEvent::WriteFailed) => Self::end(
                Err(Failure::Connection),
            ),
            _ => Self::end(Err(Failure::OutOfTurn)),
        };
        *self = next;
        action
    }

    /// How the direction ended, once it has.
    pub fn outcome(&self) -> (outcome: Option<Result<(), Failure>>)
        ensures
            outcome == match *self {
                Transmitter::Finished(outcome) => Some(outcome),
                _ => None,
            },
    {
        match *self {
            Transmitter::Finished(outcome) => Some(outcome),
            _ => None,
        }
    }

    fn end(outcome: Result<(), Failure>) -> (end: (Transmitter, TransmitAction))
        ensures
            (end.0, end.1@) == transmit_end(outcome),
    {
        (Transmitter::Finished(outcome), TransmitAction::Stop(outcome))
    }
}

} // verus!
