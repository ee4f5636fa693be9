use async_channel::TryRecvError;
use hchap::delivery::{TrackedPacket, TrackedPacketResponse};
use hchap::error::ChannelError;
use hchap::packet::{Packet, PacketType};

fn text_packet(code: u32) -> Packet {
    Packet::new(PacketType::Message, code, b"hi".to_vec())
}

#[test]
fn payload_is_taken_only_once() {
    let (mut t, _rx) = TrackedPacket::new(3, text_packet(11));
    assert_eq!(t.destination(), 3);
    assert_eq!(t.take_payload(), Some(text_packet(11)));
    assert_eq!(t.take_payload(), None);
    assert_eq!(t.take_payload(), None);
}

#[test]
fn confirm_publishes_confirmed() {
    let (mut t, rx) = TrackedPacket::new(1, text_packet(1));
    assert_eq!(t.outcome(), None);
    assert_eq!(t.confirm(), Ok(()));
    assert_eq!(t.outcome(), Some(TrackedPacketResponse::Confirmed));
    assert_eq!(rx.try_recv(), Ok(TrackedPacketResponse::Confirmed));
}

#[test]
fn fail_publishes_failed() {
    let (mut t, rx) = TrackedPacket::new(1, text_packet(1));
    assert_eq!(t.fail(), Ok(()));
    assert_eq!(rx.try_recv(), Ok(TrackedPacketResponse::Failed));
}

#[test]
fn only_the_first_outcome_is_published() {
    let (mut t, rx) = TrackedPacket::new(1, text_packet(1));
    assert_eq!(t.fail(), Ok(()));
    assert_eq!(t.confirm(), Ok(()));
    assert_eq!(t.outcome(), Some(TrackedPacketResponse::Failed));
    assert_eq!(rx.try_recv(), Ok(TrackedPacketResponse::Failed));
    assert_eq!(rx.try_recv(), Err(TryRecvError::Empty));
}

#[test]
fn outcome_without_listener_is_a_soft_error() {
    let (mut t, rx) = TrackedPacket::new(1, text_packet(1));
    drop(rx);
    assert_eq!(t.confirm(), Err(ChannelError::ChannelDead));
    assert_eq!(t.outcome(), Some(TrackedPacketResponse::Confirmed));
    assert_eq!(t.fail(), Ok(()));
}
