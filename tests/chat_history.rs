use hchap::chat::{Chat, ChatPage, PacketState};
use hchap::notification::{Notification, NotificationType};
use hchap::packet::{Packet, PacketType};
use hchap::pages::{BrowseChatsMessage, BrowseChatsPage, Pages};

fn packet(code: u32) -> Packet {
    Packet::new(PacketType::Message, code, vec![code as u8])
}

#[test]
fn chat_records_packets_with_initial_states() {
    let mut c = Chat::new();
    assert_eq!(c.get_unique_id(), 0);
    c.add_packet(true, packet(1));
    c.add_packet(false, packet(2));
    assert_eq!(c.get_unique_id(), 2);
    assert_eq!(c.packets()[0], (true, packet(1), PacketState::Unknown));
    assert_eq!(c.packets()[1], (false, packet(2), PacketState::Verified));
}

#[test]
fn chat_updates_state_in_range_only() {
    let mut c = Chat::new();
    c.add_packet(true, packet(1));
    c.update_state(0, PacketState::Failed);
    c.update_state(5, PacketState::Verified);
    assert_eq!(c.packets().len(), 1);
    assert_eq!(c.packets()[0], (true, packet(1), PacketState::Failed));
}

#[test]
fn chat_keeps_foreign_username() {
    let mut c = Chat::new();
    assert_eq!(c.foreign_username(), None);
    c.set_foreign_username(String::from("bo"));
    assert_eq!(c.foreign_username(), Some(&String::from("bo")));
}

#[test]
fn chat_page_opens_and_extends_conversations() {
    let mut page = ChatPage::new();
    assert_eq!(page.next_unique_id(7), 0);
    assert_eq!(page.add_packet(7, false, packet(1)), Ok(()));
    assert_eq!(page.add_packet(7, true, packet(2)), Ok(()));
    assert_eq!(page.add_packet(8, true, packet(3)), Ok(()));
    assert_eq!(page.next_unique_id(7), 2);
    assert_eq!(page.chat(8).unwrap().packets().len(), 1);
    assert!(page.chat(9).is_none());
    page.update_state(7, 1, PacketState::Verified);
    assert_eq!(page.chat(7).unwrap().packets()[1].2, PacketState::Verified);
    page.set_active_chat(8);
    assert_eq!(page.active_chat(), 8);
}

#[test]
fn notifications_have_kind_and_heading() {
    let s = Notification::success(String::from("done"));
    assert_eq!(s.kind(), NotificationType::Success);
    assert_eq!(s.heading(), "done");
    assert!(s.body().is_none());
    let e = Notification::error(String::from("Invalid ID"));
    assert_eq!(e.kind(), NotificationType::Error);
}

#[test]
fn browse_page_tracks_connections() {
    let mut page = BrowseChatsPage::new();
    let n = page.update(BrowseChatsMessage::ChatConnected(3)).unwrap();
    assert_eq!(n.kind(), NotificationType::Success);
    assert_eq!(n.heading(), "Connection made!");
    let _ = page.update(BrowseChatsMessage::ChatConnected(4));
    let _ = page.update(BrowseChatsMessage::ChatConnected(3));
    assert_eq!(page.chats(), &vec![3, 4, 3]);
    assert!(page.update(BrowseChatsMessage::ChatDisconnect(3)).is_none());
    assert_eq!(page.chats(), &vec![4]);
    assert!(page.update(BrowseChatsMessage::ChatDisconnect(9)).is_none());
    assert_eq!(page.chats(), &vec![4]);
    assert_ne!(Pages::Chat(1), Pages::Chat(2));
}
