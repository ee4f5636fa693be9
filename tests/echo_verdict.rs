use hchap::error::{Error, NetworkError};
use hchap::exchange::{answer_exchange, judge_echo, judge_reply, EchoReply};
use hchap::packet::{Packet, PacketType};

#[test]
fn matching_echo_is_true() {
    assert_eq!(judge_echo(0x0A0B0C0D, &vec![0x0A, 0x0B, 0x0C, 0x0D]), Ok(true));
    assert_eq!(judge_reply(7, EchoReply::Received(vec![0, 0, 0, 7])), Ok(true));
}

#[test]
fn other_four_bytes_are_false() {
    assert_eq!(judge_echo(0x0A0B0C0D, &vec![0x0D, 0x0C, 0x0B, 0x0A]), Ok(false));
    assert_eq!(judge_echo(7, &vec![0, 0, 0, 8]), Ok(false));
}

#[test]
fn longer_echo_is_false() {
    assert_eq!(judge_echo(7, &vec![0, 0, 0, 7, 0]), Ok(false));
}

#[test]
fn short_echo_is_a_failure_not_a_mismatch() {
    let malformed = Err(Error::NetworkError(NetworkError::MalformedCode));
    assert_eq!(judge_echo(7, &vec![]), malformed);
    assert_eq!(judge_echo(7, &vec![0, 0, 7]), malformed);
}

#[test]
fn timeout_and_read_failure_are_failures() {
    assert_eq!(
        judge_reply(7, EchoReply::TimedOut),
        Err(Error::NetworkError(NetworkError::ConfirmationTimeout))
    );
    assert_eq!(
        judge_reply(7, EchoReply::ReadFailed(String::from("reset"))),
        Err(Error::ConnectionError(String::from("reset")))
    );
}

#[test]
fn inbound_exchange_is_decoded_and_echoed() {
    let sent = Packet::new(PacketType::Message, 0x01020304, b"hi".to_vec());
    let (echo, packet) = answer_exchange(sent.clone().to_bytes()).unwrap();
    assert_eq!(echo, vec![1, 2, 3, 4]);
    assert_eq!(packet, sent);
    assert_eq!(judge_echo(0x01020304, &echo), Ok(true));
}

#[test]
fn malformed_inbound_exchange_is_an_error() {
    assert_eq!(
        answer_exchange(vec![9, 0, 0, 0, 0]),
        Err(Error::NetworkError(NetworkError::InvalidPacket))
    );
    assert_eq!(answer_exchange(vec![]), Err(Error::NetworkError(NetworkError::InvalidPacket)));
}
