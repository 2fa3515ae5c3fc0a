//! The session: both directions of one connection, run side by side until the first of them
//! finishes.
//!
//! A session is `Running` while both directions are at work and `Completed` from the moment
//! one of them stops, for whatever reason. The outcome of the session is the outcome of that
//! direction; the other direction is given up where it stands, and nothing that is reported
//! for it afterwards changes anything.

use vstd::prelude::*;
use crate::Failure;
use crate::frame::{frame_of, lemma_frame_integrity, HEADER_LEN};
use crate::receive::{
    lemma_receive_run_in_order, receive_next, receive_run, receive_trace, receiver_at_start,
    ReceiveAction, ReceiveActionView, ReceiveEvent, ReceiveEventView, ReceiveState, Receiver,
};
use crate::transmit::{
    lemma_transmit_run_in_order, transmit_next, transmit_run, TransmitAction, TransmitActionView,
    TransmitEvent, TransmitEventView, Transmitter,
};

verus! {

/// One run of the two directions over one connection.
#[derive(Clone, Copy, PartialEq, Eq, Debug)]
pub enum Session {
    /// Both directions are at work.
    Running { transmitter: Transmitter, receiver: Receiver },
    /// One direction has stopped, and the session ended with its outcome.
    Completed(Result<(), Failure>),
}

/// What the driver reports to the session: an event of one of the two directions.
#[derive(PartialEq, Eq, Debug)]
pub enum SessionEvent {
    Transmit(TransmitEvent),
    Receive(ReceiveEvent),
}

/// What the session asks the driver to do next.
#[derive(PartialEq, Eq, Debug)]
pub enum SessionAction {
    /// Carry on with the transmit direction. The action is never `Stop`.
    Transmit(TransmitAction),
    /// Carry on with the receive direction. The action is never `Stop`.
    Receive(ReceiveAction),
    /// Give up both directions: the session is over, with this outcome.
    Complete(Result<(), Failure>),
}

/// A [`SessionEvent`] as a mathematical value.
pub enum SessionEventView {
    Transmit(TransmitEventView),
    Receive(ReceiveEventView),
}

/// A [`SessionAction`] as a mathematical value.
pub enum SessionActionView {
    Transmit(TransmitActionView),
    Receive(ReceiveActionView),
    Complete(Result<(), Failure>),
}

impl View for SessionEvent {
    type V = SessionEventView;

    open spec fn view(&self) -> SessionEventView {
        match *self {
            SessionEvent::Transmit(event) => SessionEventView::Transmit(event@),
            SessionEvent::Receive(event) => SessionEventView::Receive(event@),
        }
    }
}

impl View for SessionAction {
    type V = SessionActionView;

    open spec fn view(&self) -> SessionActionView {
        match *self {
            SessionAction::Transmit(action) => SessionActionView::Transmit(action@),
            SessionAction::Receive(action) => SessionActionView::Receive(action@),
            SessionAction::Complete(outcome) => SessionActionView::Complete(outcome),
        }
    }
}

/// The session's transition rule: the session that follows `session` on `event`, and the
/// action that the driver is asked for.
///
/// While the session runs, the event goes to the direction it belongs to, and the other
/// direction stays as it is. If that direction stops on the event, the session is completed
/// with the direction's outcome. A completed session stays as it is and answers every event
/// with `Complete`.
pub open spec fn session_next(session: Session, event: SessionEventView) -> (
    Session,
    SessionActionView,
) {
    match session {
        Session::Completed(outcome) => (session, SessionActionView::Complete(outcome)),
        Session::Running { transmitter, receiver } => match event {
            SessionEventView::Transmit(event) => match transmit_next(transmitter, event) {
                (_, TransmitActionView::Stop(outcome)) => session_end(outcome),
                (transmitter, action) => (
                    Session::Running { transmitter, receiver },
                    SessionActionView::Transmit(action),
                ),
            },
            SessionEventView::Receive(event) => match receive_next(receiver, event) {
                (_, ReceiveActionView::Stop(failure)) => session_end(Err(failure)),
                (receiver, action) => (
                    Session::Running { transmitter, receiver },
                    SessionActionView::Receive(action),
                ),
            },
        },
    }
}

/// The end of the session with `outcome`.
pub open spec fn session_end(outcome: Result<(), Failure>) -> (Session, SessionActionView) {
    (Session::Completed(outcome), SessionActionView::Complete(outcome))
}

/// The session that `session` becomes on `events`, taken in turn, and the actions that it
/// asks for on the way.
pub open spec fn session_trace(session: Session, events: Seq<SessionEventView>) -> (
    Session,
    Seq<SessionActionView>,
)
    decreases events.len(),
{
    if events.len() == 0 {
        (session, Seq::empty())
    } else {
        let (next, action) = session_next(session, events.first());
        let (last, actions) = session_trace(next, events.drop_first());
        (last, seq![action] + actions)
    }
}

/// A session never passes on the `Stop` of a direction: it answers `Complete` instead, and it
/// does so exactly when it is completed.
pub proof fn lemma_stop_becomes_complete(session: Session, event: SessionEventView)
    ensures
        !(session_next(session, event).1 matches SessionActionView::Transmit(action) && action
            is Stop),
        !(session_next(session, event).1 matches SessionActionView::Receive(action) && action
            is Stop),
        session_next(session, event).1 is Complete <==> session_next(session, event).0
            is Completed,
{
}

/// The direction that stops first decides the session: when a direction of a running session
/// stops on an event reported for it, the session is completed with the outcome of that
/// direction, whatever the other direction was doing.
pub proof fn lemma_first_to_stop_decides(
    transmitter: Transmitter,
    receiver: Receiver,
    sent: TransmitEventView,
    received: ReceiveEventView,
)
    ensures
        transmit_next(transmitter, sent).1 matches TransmitActionView::Stop(outcome)
            ==> session_next(
            Session::Running { transmitter, receiver },
            SessionEventView::Transmit(sent),
        ) == session_end(outcome),
        receive_next(receiver, received).1 matches ReceiveActionView::Stop(failure)
            ==> session_next(
            Session::Running { transmitter, receiver },
            SessionEventView::Receive(received),
        ) == session_end(Err(failure)),
{
}

/// The two directions share nothing: an event of one direction that does not stop it leaves
/// the other direction as it is, so for two such events, one of each direction, it makes no
/// difference which of them is reported first.
pub proof fn lemma_directions_are_independent(
    transmitter: Transmitter,
    receiver: Receiver,
    sent: TransmitEventView,
    received: ReceiveEventView,
)
    requires
        !(transmit_next(transmitter, sent).1 is Stop),
        !(receive_next(receiver, received).1 is Stop),
    ensures
        ({
            let running = Session::Running { transmitter, receiver };
            let sent = SessionEventView::Transmit(sent);
            let received = SessionEventView::Receive(received);
            let (after_sent, on_sent) = session_next(running, sent);
            let (after_received, on_received) = session_next(running, received);
            &&& after_sent matches Session::Running { receiver: untouched, .. } && untouched
                == receiver
            &&& after_received matches Session::Running { transmitter: untouched, .. }
                && untouched == transmitter
            &&& session_next(after_sent, received) == (
                session_next(after_received, sent).0,
                on_received,
            )
            &&& session_next(after_received, sent).1 == on_sent
        }),
{
}

/// The outcome of a session is final: whatever is reported to a completed session, it stays
/// completed with the same outcome and answers `Complete` each time.
pub proof fn lemma_completed_session_is_final(
    outcome: Result<(), Failure>,
    events: Seq<SessionEventView>,
)
    ensures
        session_trace(Session::Completed(outcome), events) == (
            Session::Completed(outcome),
            Seq::new(events.len(), |i: int| SessionActionView::Complete(outcome)),
        ),
    decreases events.len(),
{
    if events.len() > 0 {
        lemma_completed_session_is_final(outcome, events.drop_first());
    }
}

/// A dead connection ends the session even while there is more to send: when a read fails,
/// a running session is completed with a failure at once, whatever its transmitter is
/// doing, and whatever is reported afterwards, for either direction, it asks for nothing
/// more. The failure is [`Failure::Connection`] if the receiver was reading.
pub proof fn lemma_failed_read_ends_session(
    transmitter: Transmitter,
    receiver: Receiver,
    events: Seq<SessionEventView>,
)
    ensures
        ({
            let running = Session::Running { transmitter, receiver };
            let failed_read = SessionEventView::Receive(ReceiveEventView::ReadFailed);
            let (last, actions) = session_trace(running, seq![failed_read] + events);
            &&& last is Completed
            &&& last->0 is Err
            &&& actions == Seq::new(events.len() + 1, |i: int| SessionActionView::Complete(last->0))
            &&& receiver.state is Header || receiver.state is Payload ==> last
                == Session::Completed(Err(Failure::Connection))
        }),
{
    let running = Session::Running { transmitter, receiver };
    let failed_read = SessionEventView::Receive(ReceiveEventView::ReadFailed);
    let all = seq![failed_read] + events;
    assert(all.drop_first() =~= events);
    // The receiver stops on the failed read, whatever it was waiting for, and the session
    // with it.
    let completed = session_next(running, failed_read).0;
    lemma_completed_session_is_final(completed->0, events);
}

/// A payload comes out of a frame as it went in: the frame that a transmitter writes for a
/// payload, read by a receiver that accepts payloads of this length as header and body, makes
/// the receiver ask for exactly the body and then hand over exactly the payload.
pub proof fn lemma_frame_round_trip(max_frame_len: usize, payload: Seq<u8>)
    requires
        payload.len() <= max_frame_len,
    ensures
        transmit_next(Transmitter::Pulling, TransmitEventView::Produced(payload)) == (
            Transmitter::Writing,
            TransmitActionView::Write(frame_of(payload)),
        ),
        receive_trace(
            receiver_at_start(max_frame_len),
            seq![
                ReceiveEventView::Bytes(frame_of(payload).take(8)),
                ReceiveEventView::Bytes(frame_of(payload).skip(8)),
            ],
        ) == (
            Receiver { state: ReceiveState::Delivering, max_frame_len },
            seq![
                ReceiveActionView::Read(payload.len() as usize),
                ReceiveActionView::Deliver(payload),
            ],
        ),
{
    lemma_frame_integrity(payload);
    let header = ReceiveEventView::Bytes(frame_of(payload).take(8));
    let body = ReceiveEventView::Bytes(frame_of(payload).skip(8));
    let events = seq![header, body];
    let reading = Receiver {
        state: ReceiveState::Payload(payload.len() as usize),
        max_frame_len,
    };
    let delivering = Receiver { state: ReceiveState::Delivering, max_frame_len };
    // From the end: nothing more is reported once the payload has been handed over,
    assert(receive_trace(delivering, events.drop_first().drop_first()).1
        == Seq::<ReceiveActionView>::empty());
    // and the body, reported to the receiver that has read the header, is handed over.
    assert(receive_trace(reading, events.drop_first()) == (
        delivering,
        seq![ReceiveActionView::Deliver(payload)] + Seq::<ReceiveActionView>::empty(),
    ));
}

/// What one side sends, the other receives, in the same order: when a fresh transmitter is
/// given the payloads `outgoing` and meets no failure, a fresh receiver on the other end of
/// the connection, which accepts payloads of these lengths, hands over exactly `outgoing`,
/// each payload whole and in its place.
pub proof fn lemma_peer_receives_in_order(max_frame_len: usize, outgoing: Seq<Seq<u8>>)
    requires
        forall|i: int| 0 <= i < outgoing.len() ==> (#[trigger] outgoing[i]).len() <= max_frame_len,
    ensures
        ({
            let (written, sent) = transmit_run(
                Transmitter::Pulling,
                TransmitActionView::Pull,
                outgoing,
            );
            let (delivered, failure) = receive_run(
                receiver_at_start(max_frame_len),
                ReceiveActionView::Read(HEADER_LEN),
                written,
            );
            sent == Ok::<(), Failure>(()) && delivered == outgoing
        }),
{
    lemma_transmit_run_in_order(outgoing);
    lemma_receive_run_in_order(max_frame_len, outgoing);
}

/// Starts a session whose receiver accepts payloads of up to `max_frame_len` bytes.
///
/// The session begins `Running`, with both directions at their start. Along with it come the
/// two actions that set the directions going: the transmitter's pull of the first value, and
/// the receiver's read of the first header.
pub fn session(max_frame_len: usize) -> (start: (Session, TransmitAction, ReceiveAction))
    ensures
        start.0 == (Session::Running {
            transmitter: Transmitter::Pulling,
            receiver: receiver_at_start(max_frame_len),
        }),
        start.0.well_formed(),
        start.1@ == TransmitActionView::Pull,
        start.2@ == ReceiveActionView::Read(HEADER_LEN),
{
    let (transmitter, pull) = Transmitter::new();
    let (receiver, read) = Receiver::new(max_frame_len);
    (Session::Running { transmitter, receiver }, pull, read)
}

impl Session {
    /// Whether the session is completed exactly if a direction has stopped: in a running
    /// session, neither the transmitter has finished nor the receiver failed.
    pub open spec fn well_formed(self) -> bool {
        self matches Session::Running { transmitter, receiver } ==> !(transmitter is Finished)
            && !(receiver.state is Failed)
    }

    /// Takes in what the driver reports for one direction and says what to do next.
    pub fn step(&mut self, event: SessionEvent) -> (action: SessionAction)
        ensures
            (*final(self), action@) == session_next(*old(self), event@),
            old(self).well_formed() ==> final(self).well_formed(),
    {
        match *self {
            Session::Completed(outcome) => SessionAction::Complete(outcome),
            Session::Running { transmitter, receiver } => match event {
                SessionEvent::Transmit(event) => {
                    let mut transmitter = transmitter;
                    match transmitter.step(event) {
                        TransmitAction::Stop(outcome) => self.complete(outcome),
                        action => {
                            *self = Session::Running { transmitter, receiver };
                            SessionAction::Transmit(action)
                        },
                    }
                },
                SessionEvent::Receive(event) => {
                    let mut receiver = receiver;
                    match receiver.step(event) {
                        ReceiveAction::Stop(failure) => self.complete(Err(failure)),
                        action => {
                            *self = Session::Running { transmitter, receiver };
                            SessionAction::Receive(action)
                        },
                    }
                },
            },
        }
    }

    /// How the session ended, once it has.
    pub fn outcome(&self) -> (outcome: Option<Result<(), Failure>>)
        ensures
            outcome == match *self {
                Session::Completed(outcome) => Some(outcome),
                Session::Running { .. } => None,
            },
    {
        match *self {
            Session::Completed(outcome) => Some(outcome),
            Session::Running { .. } => None,
        }
    }

    fn complete(&mut self, outcome: Result<(), Failure>) -> (action: SessionAction)
        ensures
            (*final(self), action@) == session_end(outcome),
    {
        *self = Session::Completed(outcome);
        SessionAction::Complete(outcome)
    }
}

} // verus!
