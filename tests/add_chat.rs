use std::str::FromStr;

use hchap::notification::NotificationType;
use hchap::pages::{AddChatMessage, AddChatOutcome, AddChatPage};

// The hex form of the ed25519 base point, a valid public key.
const VALID_ID: &str = "5866666666666666666666666666666666666666666666666666666666666666";

#[test]
fn typing_replaces_the_text() {
    let mut page = AddChatPage::new();
    assert!(matches!(page.update(AddChatMessage::Input(String::from("ab"))), AddChatOutcome::Nothing));
    assert!(matches!(page.update(AddChatMessage::Input(String::from("abc"))), AddChatOutcome::Nothing));
    assert_eq!(page.input(), "abc");
}

#[test]
fn submitting_a_valid_id_asks_to_connect() {
    let mut page = AddChatPage::new();
    let _ = page.update(AddChatMessage::Input(String::from(VALID_ID)));
    match page.update(AddChatMessage::Submit) {
        AddChatOutcome::Connect(id) => assert_eq!(id, iroh::EndpointId::from_str(VALID_ID).unwrap()),
        other => panic!("unexpected outcome {:?}", other),
    }
    assert_eq!(page.input(), "");
}

#[test]
fn submitting_other_text_is_an_invalid_id() {
    let mut page = AddChatPage::new();
    let _ = page.update(AddChatMessage::Input(String::from("not an id")));
    match page.update(AddChatMessage::Submit) {
        AddChatOutcome::Invalid(n) => {
            assert_eq!(n.kind(), NotificationType::Error);
            assert_eq!(n.heading(), "Invalid ID");
        }
        other => panic!("unexpected outcome {:?}", other),
    }
    assert_eq!(page.input(), "");
}
