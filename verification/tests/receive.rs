use tropocol::receive::{ReceiveAction, ReceiveEvent, ReceiveState, Receiver};
use tropocol::Failure;

fn receiver_in(state: ReceiveState) -> Receiver {
    Receiver { state, max_frame_len: 64 }
}

#[test]
fn receiver_starts_by_reading_a_header() {
    let (receiver, action) = Receiver::new(64);
    assert_eq!(receiver, Receiver { state: ReceiveState::Header, max_frame_len: 64 });
    assert_eq!(action, ReceiveAction::Read(8));
    assert_eq!(receiver.failure(), None);
}

#[test]
fn header_announces_the_payload_to_read() {
    let (mut receiver, _) = Receiver::new(64);
    let action = receiver.step(ReceiveEvent::Bytes(vec![0, 0, 0, 0, 0, 0, 0, 5]));
    assert_eq!(action, ReceiveAction::Read(5));
    assert_eq!(receiver.state, ReceiveState::Payload(5));
    assert_eq!(receiver.max_frame_len, 64);
}

#[test]
fn whole_payload_is_delivered() {
    let mut receiver = receiver_in(ReceiveState::Payload(5));
    let action = receiver.step(ReceiveEvent::Bytes(b"hello".to_vec()));
    assert_eq!(action, ReceiveAction::Deliver(b"hello".to_vec()));
    assert_eq!(receiver.state, ReceiveState::Delivering);
}

#[test]
fn delivery_is_followed_by_the_next_header() {
    let mut receiver = receiver_in(ReceiveState::Delivering);
    assert_eq!(receiver.step(ReceiveEvent::Delivered), ReceiveAction::Read(8));
    assert_eq!(receiver.state, ReceiveState::Header);
}

#[test]
fn short_header_fails_without_delivery() {
    // The stream closes after five of the eight bytes of a length prefix.
    let (mut receiver, first) = Receiver::new(64);
    assert_eq!(first, ReceiveAction::Read(8));
    let action = receiver.step(ReceiveEvent::Bytes(vec![0, 0, 0, 0, 0]));
    assert_eq!(action, ReceiveAction::Stop(Failure::Connection));
    assert_eq!(receiver.failure(), Some(Failure::Connection));
    for event in [
        ReceiveEvent::Bytes(vec![0, 0, 3]),
        ReceiveEvent::Bytes(b"abc".to_vec()),
        ReceiveEvent::Delivered,
        ReceiveEvent::ReadFailed,
        ReceiveEvent::DecodeFailed,
    ] {
        assert_eq!(receiver.step(event), ReceiveAction::Stop(Failure::Connection));
    }
}

#[test]
fn failed_header_read_fails_without_delivery() {
    let (mut receiver, _) = Receiver::new(64);
    assert_eq!(receiver.step(ReceiveEvent::ReadFailed), ReceiveAction::Stop(Failure::Connection));
    assert_eq!(receiver.state, ReceiveState::Failed(Failure::Connection));
}

#[test]
fn overlong_header_read_fails() {
    let (mut receiver, _) = Receiver::new(64);
    let action = receiver.step(ReceiveEvent::Bytes(vec![0; 9]));
    assert_eq!(action, ReceiveAction::Stop(Failure::Connection));
}

#[test]
fn short_payload_fails_without_delivery() {
    let mut receiver = receiver_in(ReceiveState::Payload(5));
    let action = receiver.step(ReceiveEvent::Bytes(b"hell".to_vec()));
    assert_eq!(action, ReceiveAction::Stop(Failure::Connection));
    assert_eq!(receiver.failure(), Some(Failure::Connection));
}

#[test]
fn failed_payload_read_fails() {
    let mut receiver = receiver_in(ReceiveState::Payload(5));
    assert_eq!(receiver.step(ReceiveEvent::ReadFailed), ReceiveAction::Stop(Failure::Connection));
}

#[test]
fn payload_at_the_limit_is_accepted() {
    let (mut receiver, _) = Receiver::new(64);
    let action = receiver.step(ReceiveEvent::Bytes(vec![0, 0, 0, 0, 0, 0, 0, 64]));
    assert_eq!(action, ReceiveAction::Read(64));
}

#[test]
fn payload_over_the_limit_is_refused() {
    let (mut receiver, _) = Receiver::new(64);
    let action = receiver.step(ReceiveEvent::Bytes(vec![0, 0, 0, 0, 0, 0, 0, 65]));
    assert_eq!(action, ReceiveAction::Stop(Failure::FrameTooLarge));
    assert_eq!(receiver.failure(), Some(Failure::FrameTooLarge));
}

#[test]
fn huge_announcement_is_refused() {
    let (mut receiver, _) = Receiver::new(1 << 20);
    let action = receiver.step(ReceiveEvent::Bytes(vec![255; 8]));
    assert_eq!(action, ReceiveAction::Stop(Failure::FrameTooLarge));
    let (mut receiver, _) = Receiver::new(0);
    let action = receiver.step(ReceiveEvent::Bytes(vec![0, 0, 0, 0, 0, 0, 0, 1]));
    assert_eq!(action, ReceiveAction::Stop(Failure::FrameTooLarge));
}

#[test]
fn empty_payload_is_a_frame_of_its_own() {
    let (mut receiver, _) = Receiver::new(0);
    assert_eq!(receiver.step(ReceiveEvent::Bytes(vec![0; 8])), ReceiveAction::Read(0));
    assert_eq!(receiver.step(ReceiveEvent::Bytes(Vec::new())), ReceiveAction::Deliver(Vec::new()));
    assert_eq!(receiver.step(ReceiveEvent::Delivered), ReceiveAction::Read(8));
}

#[test]
fn decode_failure_ends_with_failure() {
    let mut receiver = receiver_in(ReceiveState::Delivering);
    assert_eq!(receiver.step(ReceiveEvent::DecodeFailed), ReceiveAction::Stop(Failure::Decode));
    assert_eq!(receiver.failure(), Some(Failure::Decode));
    assert_eq!(receiver.step(ReceiveEvent::Delivered), ReceiveAction::Stop(Failure::Decode));
}

#[test]
fn receive_events_out_of_turn_end_the_direction() {
    let stop = || ReceiveAction::Stop(Failure::OutOfTurn);
    assert_eq!(receiver_in(ReceiveState::Header).step(ReceiveEvent::Delivered), stop());
    assert_eq!(receiver_in(ReceiveState::Header).step(ReceiveEvent::DecodeFailed), stop());
    assert_eq!(receiver_in(ReceiveState::Payload(1)).step(ReceiveEvent::Delivered), stop());
    assert_eq!(receiver_in(ReceiveState::Payload(1)).step(ReceiveEvent::DecodeFailed), stop());
    assert_eq!(receiver_in(ReceiveState::Delivering).step(ReceiveEvent::Bytes(vec![1])), stop());
    assert_eq!(receiver_in(ReceiveState::Delivering).step(ReceiveEvent::ReadFailed), stop());
}

#[test]
fn receiver_without_a_limit_accepts_any_announcement() {
    if usize::BITS == 64 {
        let (mut receiver, _) = Receiver::new(usize::MAX);
        let action = receiver.step(ReceiveEvent::Bytes(vec![255; 8]));
        assert_eq!(action, ReceiveAction::Read(usize::MAX));
        assert_eq!(receiver.state, ReceiveState::Payload(usize::MAX));
    }
    let (mut receiver, _) = Receiver::new(usize::MAX);
    let action = receiver.step(ReceiveEvent::Bytes(vec![0, 0, 0, 0, 0, 1, 0, 0]));
    assert_eq!(action, ReceiveAction::Read(65_536));
}
