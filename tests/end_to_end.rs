use hchap::delivery::{TrackedPacket, TrackedPacketResponse};
use hchap::exchange::{answer_exchange, judge_reply, EchoReply};
use hchap::packet::{Packet, PacketType};
use hchap::registry::{settle, ConnectionEvent, ConnectionManagerMessage, ConnectionRegistry, Foreign, ManagerAction};

#[test]
fn two_nodes_exchange_a_confirmed_message() {
    // Node A knows B under connection 20; node B knows A under connection 10.
    let mut node_a: ConnectionRegistry<&str> = ConnectionRegistry::new();
    let mut node_b: ConnectionRegistry<&str> = ConnectionRegistry::new();
    let connected_a = node_a.handle(ConnectionManagerMessage::Add(Foreign::new(20, "to B")));
    let connected_b = node_b.handle(ConnectionManagerMessage::Add(Foreign::new(10, "to A")));
    assert!(matches!(connected_a, ManagerAction::Publish(ConnectionEvent::SuccessfulConnection(20))));
    assert!(matches!(connected_b, ManagerAction::Publish(ConnectionEvent::SuccessfulConnection(10))));

    let sent = Packet::message(0x5EED, String::from("hi"));
    let (outbound, confirmation) = TrackedPacket::new(20, sent.clone());
    let (packet, mut outbound) = match node_a.handle(ConnectionManagerMessage::Message(outbound)) {
        ManagerAction::Dispatch(p, t) => (p, t),
        other => panic!("unexpected action {:?}", other),
    };
    assert_eq!(node_a.peer(outbound.destination()).unwrap().stable_id(), 20);

    // On the wire to B, and B's answer.
    let kind = packet.kind;
    let code = packet.code;
    let (echo, received) = answer_exchange(packet.to_bytes()).unwrap();
    let inbound = (10usize, received);
    assert_eq!(inbound, (10, Packet::new(PacketType::Message, 0x5EED, b"hi".to_vec())));

    // Back on A.
    let verdict = judge_reply(code, EchoReply::Received(echo));
    assert_eq!(verdict, Ok(true));
    assert_eq!(settle(&mut outbound, kind, verdict), None);
    assert_eq!(confirmation.try_recv(), Ok(TrackedPacketResponse::Confirmed));
}
