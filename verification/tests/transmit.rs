use tropocol::frame::encode_frame;
use tropocol::transmit::{TransmitAction, TransmitEvent, Transmitter};
use tropocol::Failure;

#[test]
fn transmitter_starts_by_pulling() {
    let (transmitter, action) = Transmitter::new();
    assert_eq!(transmitter, Transmitter::Pulling);
    assert_eq!(action, TransmitAction::Pull);
    assert_eq!(transmitter.outcome(), None);
}

#[test]
fn produced_value_is_framed_and_written() {
    let (mut transmitter, _) = Transmitter::new();
    let action = transmitter.step(TransmitEvent::Produced(b"hi".to_vec()));
    assert_eq!(action, TransmitAction::Write(vec![0, 0, 0, 0, 0, 0, 0, 2, b'h', b'i']));
    assert_eq!(transmitter, Transmitter::Writing);
}

#[test]
fn written_frame_is_followed_by_a_pull() {
    let (mut transmitter, _) = Transmitter::new();
    transmitter.step(TransmitEvent::Produced(vec![1]));
    assert_eq!(transmitter.step(TransmitEvent::Written), TransmitAction::Pull);
    assert_eq!(transmitter, Transmitter::Pulling);
}

#[test]
fn exhausted_producer_ends_gracefully() {
    let (mut transmitter, _) = Transmitter::new();
    assert_eq!(transmitter.step(TransmitEvent::Exhausted), TransmitAction::Stop(Ok(())));
    assert_eq!(transmitter, Transmitter::Finished(Ok(())));
    assert_eq!(transmitter.outcome(), Some(Ok(())));
}

#[test]
fn encode_failure_ends_with_failure() {
    let (mut transmitter, _) = Transmitter::new();
    assert_eq!(
        transmitter.step(TransmitEvent::EncodeFailed),
        TransmitAction::Stop(Err(Failure::Encode))
    );
    assert_eq!(transmitter.outcome(), Some(Err(Failure::Encode)));
}

#[test]
fn failed_write_stops_pulling() {
    let (mut transmitter, _) = Transmitter::new();
    transmitter.step(TransmitEvent::Produced(vec![1, 2, 3]));
    let stop = || TransmitAction::Stop(Err(Failure::Connection));
    assert_eq!(transmitter.step(TransmitEvent::WriteFailed), stop());
    assert_eq!(transmitter.outcome(), Some(Err(Failure::Connection)));
    assert_eq!(transmitter.step(TransmitEvent::Written), stop());
    assert_eq!(transmitter.step(TransmitEvent::Produced(vec![4])), stop());
    assert_eq!(transmitter.step(TransmitEvent::Exhausted), stop());
    assert_eq!(transmitter.step(TransmitEvent::EncodeFailed), stop());
    assert_eq!(transmitter.step(TransmitEvent::WriteFailed), stop());
    assert_eq!(transmitter, Transmitter::Finished(Err(Failure::Connection)));
}

#[test]
fn finished_transmitter_keeps_its_outcome() {
    let mut transmitter = Transmitter::Finished(Ok(()));
    assert_eq!(transmitter.step(TransmitEvent::Produced(vec![9])), TransmitAction::Stop(Ok(())));
    assert_eq!(transmitter.step(TransmitEvent::WriteFailed), TransmitAction::Stop(Ok(())));
    assert_eq!(transmitter, Transmitter::Finished(Ok(())));
}

#[test]
fn transmit_events_out_of_turn_end_the_direction() {
    let stop = || TransmitAction::Stop(Err(Failure::OutOfTurn));
    let mut pulling = Transmitter::Pulling;
    assert_eq!(pulling.step(TransmitEvent::Written), stop());
    let mut pulling = Transmitter::Pulling;
    assert_eq!(pulling.step(TransmitEvent::WriteFailed), stop());
    let mut writing = Transmitter::Writing;
    assert_eq!(writing.step(TransmitEvent::Produced(vec![1])), stop());
    let mut writing = Transmitter::Writing;
    assert_eq!(writing.step(TransmitEvent::Exhausted), stop());
    let mut writing = Transmitter::Writing;
    assert_eq!(writing.step(TransmitEvent::EncodeFailed), stop());
    assert_eq!(writing, Transmitter::Finished(Err(Failure::OutOfTurn)));
}

#[test]
fn frames_leave_in_the_order_of_the_values() {
    let payloads: Vec<Vec<u8>> = vec![b"one".to_vec(), Vec::new(), b"three".to_vec()];
    let (mut transmitter, mut action) = Transmitter::new();
    let mut pending = payloads.clone().into_iter();
    let mut wire: Vec<u8> = Vec::new();
    let outcome = loop {
        let event = match action {
            TransmitAction::Pull => match pending.next() {
                Some(payload) => TransmitEvent::Produced(payload),
                None => TransmitEvent::Exhausted,
            },
            TransmitAction::Write(frame) => {
                wire.extend_from_slice(&frame);
                TransmitEvent::Written
            }
            TransmitAction::Stop(outcome) => break outcome,
        };
        action = transmitter.step(event);
    };
    assert_eq!(outcome, Ok(()));
    let mut expected: Vec<u8> = Vec::new();
    for payload in &payloads {
        expected.extend_from_slice(&encode_frame(payload));
    }
    assert_eq!(wire, expected);
    assert_eq!(wire.len(), 3 * 8 + 3 + 5);
}
