use vstd::prelude::*;

use crate::notification::{Notification, NotificationType};


verus! {

/// The pages of the interface.
#[derive(Debug, Clone, Copy, PartialEq, Eq, Structural)]
pub enum Pages {
    Chat(usize),
    AddChat,
    BrowseChats,
}

/// Changes to the list of open conversations.
#[derive(Debug, Clone, Copy, PartialEq, Eq, Structural)]
pub enum BrowseChatsMessage {
    ChatConnected(usize),
    ChatDisconnect(usize),
}

/// The identifiers of the open conversations, in the order they connected.
pub struct BrowseChatsPage {
    chats: Vec<usize>,
}

/// The test for identifiers other than `id`.
pub open spec fn other_than(id: usize) -> spec_fn(usize) -> bool {
    |x: usize| x != id
}

/// `ids` without any occurrence of `id`.
pub open spec fn without(ids: Seq<usize>, id: usize) -> Seq<usize> {
    ids.filter(other_than(id))
}

impl BrowseChatsPage {
    pub closed spec fn spec_chats(&self) -> Seq<usize> {
        self.chats@
    }

    /// A page with no conversations.
    pub fn new() -> (r: BrowseChatsPage)
        ensures
            r.spec_chats() == Seq::<usize>::empty(),
    {
        BrowseChatsPage { chats: Vec::new() }
    }

    /// The identifiers of the open conversations.
    pub fn chats(&self) -> (r: &Vec<usize>)
        ensures
            r@ == self.spec_chats(),
    {
        &self.chats
    }

    /// Applies one change. A new connection is appended and announced with a
    /// success notification; a disconnection removes every occurrence of its
    /// identifier.
    pub fn update(&mut self, message: BrowseChatsMessage) -> (r: Option<Notification>)
        ensures
            match message {
                BrowseChatsMessage::ChatConnected(id) => {
                    &&& final(self).spec_chats() == old(self).spec_chats().push(id)
                    &&& r is Some
                    &&& r->0.spec_kind() == NotificationType::Success
                    &&& r->0.spec_heading() == "Connection made!"@
                },
                BrowseChatsMessage::ChatDisconnect(id) => {
                    &&& final(self).spec_chats() == without(old(self).spec_chats(), id)
                    &&& r is None
                },
            },
    {
        match message {
            BrowseChatsMessage::ChatConnected(id) => {
                self.chats.push(id);
                Some(Notification::success("Connection made!".to_owned()))
            },
            BrowseChatsMessage::ChatDisconnect(id) => {
                self.remove_all(id);
                None
            },
        }
    }

    /// Removes every occurrence of `id`, keeping the order of the rest.
    fn remove_all(&mut self, id: usize)
        ensures
            final(self).spec_chats() == without(old(self).spec_chats(), id),
    {
        let mut kept: Vec<usize> = Vec::new();
        let mut i: usize = 0;
        while i < self.chats.len()
            invariant
                i <= self.chats@.len(),
                self.chats@ == old(self).chats@,
                kept@ == self.chats@.subrange(0, i as int).filter(other_than(id)),
            decreases self.chats@.len() - i,
        {
            let x = self.chats[i];
            proof {
                let s = self.chats@;
                reveal(Seq::filter);
                assert(s.subrange(0, i + 1).drop_last() =~= s.subrange(0, i as int));
                assert(s.subrange(0, i + 1).last() == x);
                assert(other_than(id)(x) == (x != id));
            }
            if x != id {
                kept.push(x);
            }
            i += 1;
        }
        proof {
            assert(self.chats@.subrange(0, self.chats@.len() as int) =~= self.chats@);
        }
        self.chats = kept;
    }
}

/// iroh's endpoint identifier (a public key), carried as an opaque value.
#[verifier::external_type_specification]
#[verifier::external_body]
pub struct ExPublicKey(iroh::PublicKey);

/// Whether `text` is the text form of an endpoint identifier.
pub uninterp spec fn is_endpoint_id(text: Seq<char>) -> bool;

/// Relies on iroh::PublicKey's `FromStr`: decodes hex or base32 text into a
/// valid public key. Whether it succeeds depends on the text alone.
#[verifier::external_body]
fn parse_endpoint_id(text: &str) -> (r: Option<iroh::EndpointId>)
    ensures
        r is Some == is_endpoint_id(text@),
{
    <iroh::EndpointId as std::str::FromStr>::from_str(text).ok()
}

/// Input to the page on which a connection is requested.
#[derive(Debug, Clone)]
pub enum AddChatMessage {
    /// The text field now holds this.
    Input(String),
    /// Connect to the identifier in the text field.
    Submit,
}

/// What follows from a change on the add-chat page.
#[derive(Debug)]
pub enum AddChatOutcome {
    Nothing,
    /// Connect to this endpoint, then show the list of conversations.
    Connect(iroh::EndpointId),
    /// The text was no endpoint identifier.
    Invalid(Notification),
}

/// The page on which the identifier of a peer is typed in.
#[derive(Debug, Default)]
pub struct AddChatPage {
    input: String,
}

impl AddChatPage {
    pub closed spec fn spec_input(&self) -> Seq<char> {
        self.input@
    }

    /// A page with an empty text field.
    pub fn new() -> (r: AddChatPage)
        ensures
            r.spec_input() == Seq::<char>::empty(),
    {
        AddChatPage { input: String::new() }
    }

    /// The text typed so far.
    pub fn input(&self) -> (r: &String)
        ensures
            r@ == self.spec_input(),
    {
        &self.input
    }

    /// Applies one input. Typing replaces the text; submitting empties the
    /// field and asks to connect where the text was an endpoint identifier,
    /// and for an error notice where it was not.
    pub fn update(&mut self, message: AddChatMessage) -> (r: AddChatOutcome)
        ensures
            match message {
                AddChatMessage::Input(text) => final(self).spec_input() == text@ && r is Nothing,
                AddChatMessage::Submit => {
                    &&& final(self).spec_input() == Seq::<char>::empty()
                    &&& (r is Connect <==> is_endpoint_id(old(self).spec_input()))
                    &&& !is_endpoint_id(old(self).spec_input()) ==> r is Invalid
                        && r->Invalid_0.spec_kind() == NotificationType::Error
                        && r->Invalid_0.spec_heading() == "Invalid ID"@
                },
            },
    {
        match message {
            AddChatMessage::Input(text) => {
                self.input = text;
                AddChatOutcome::Nothing
            },
            AddChatMessage::Submit => {
                let mut text = String::new();
                std::mem::swap(&mut self.input, &mut text);
                match parse_endpoint_id(text.as_str()) {
                    Some(id) => AddChatOutcome::Connect(id),
                    None => AddChatOutcome::Invalid(Notification::error("Invalid ID".to_owned())),
                }
            },
        }
    }
}

} // verus!
