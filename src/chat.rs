use std::collections::HashMap;

use vstd::prelude::*;

use crate::error::Res;
use crate::packet::Packet;

verus! {

broadcast use vstd::std_specs::hash::group_hash_axioms;

/// What is known of the delivery of a packet in a chat.
#[derive(Debug, Clone, Copy, PartialEq, Eq, Structural)]
pub enum PacketState {
    /// Sent from here; no outcome yet.
    Unknown,
    Failed,
    Verified,
}

/// One entry of a chat: whether it was sent from here, the packet, its state.
pub type ChatEntry = (bool, Packet, PacketState);

/// The state a packet enters a chat with: those sent from here wait for
/// their outcome, those received are verified by their arrival.
pub open spec fn initial_state(local: bool) -> PacketState {
    if local {
        PacketState::Unknown
    } else {
        PacketState::Verified
    }
}

/// The history of one conversation.
#[derive(Debug, Clone, PartialEq, Eq)]
pub struct Chat {
    foreign_username: Option<String>,
    packets: Vec<ChatEntry>,
}

impl Chat {
    /// The other side's username, once announced.
    pub closed spec fn spec_username(&self) -> Option<Seq<char>> {
        match self.foreign_username {
            Some(name) => Some(name@),
            None => None,
        }
    }

    /// The entries, oldest first.
    pub closed spec fn spec_packets(&self) -> Seq<ChatEntry> {
        self.packets@
    }

    /// A chat with no entries and no username.
    pub fn new() -> (r: Chat)
        ensures
            r.spec_username() == None::<Seq<char>>,
            r.spec_packets() == Seq::<ChatEntry>::empty(),
    {
        Chat { foreign_username: None, packets: Vec::new() }
    }

    /// Records the username that the other side announced.
    pub fn set_foreign_username(&mut self, username: String)
        ensures
            final(self).spec_username() == Some(username@),
            final(self).spec_packets() == old(self).spec_packets(),
    {
        self.foreign_username = Some(username);
    }

    /// Appends a packet, sent from here (`local`) or received.
    pub fn add_packet(&mut self, local: bool, packet: Packet)
        ensures
            final(self).spec_packets() == old(self).spec_packets().push(
                (local, packet, initial_state(local)),
            ),
            final(self).spec_username() == old(self).spec_username(),
    {
        let state = if local {
            PacketState::Unknown
        } else {
            PacketState::Verified
        };
        self.packets.push((local, packet, state));
    }

    /// The index that the next added packet will have.
    pub fn get_unique_id(&self) -> (r: usize)
        ensures
            r == self.spec_packets().len(),
    {
        self.packets.len()
    }

    /// Sets the state of the entry at `id`; an index past the end changes nothing.
    pub fn update_state(&mut self, id: usize, state: PacketState)
        ensures
            final(self).spec_packets() == if id < old(self).spec_packets().len() {
                old(self).spec_packets().update(
                    id as int,
                    (old(self).spec_packets()[id as int].0, old(self).spec_packets()[id as int].1, state),
                )
            } else {
                old(self).spec_packets()
            },
            final(self).spec_username() == old(self).spec_username(),
    {
        if id < self.packets.len() {
            let (local, packet, _) = self.packets.remove(id);
            self.packets.insert(id, (local, packet, state));
            proof {
                assert(self.packets@ =~= old(self).packets@.update(
                    id as int,
                    (old(self).packets@[id as int].0, old(self).packets@[id as int].1, state),
                ));
            }
        }
    }

    /// The entries, oldest first.
    pub fn packets(&self) -> (r: &Vec<ChatEntry>)
        ensures
            r@ == self.spec_packets(),
    {
        &self.packets
    }

    /// The other side's username, once announced.
    pub fn foreign_username(&self) -> (r: Option<&String>)
        ensures
            match r {
                Some(name) => self.spec_username() == Some(name@),
                None => self.spec_username() is None,
            },
    {
        match &self.foreign_username {
            Some(name) => Some(name),
            None => None,
        }
    }
}

/// The chat of `base` (a fresh one where there is none) with one more entry.
pub open spec fn chat_extended(base: Option<Chat>, local: bool, packet: Packet) -> (Option<
    Seq<char>,
>, Seq<ChatEntry>) {
    match base {
        Some(c) => (c.spec_username(), c.spec_packets().push((local, packet, initial_state(local)))),
        None => (None, seq![(local, packet, initial_state(local))]),
    }
}

/// The conversations, keyed by connection identifier, and the one on show.
pub struct ChatPage {
    active_chat: usize,
    chats: HashMap<usize, Chat>,
}

impl ChatPage {
    pub closed spec fn spec_active_chat(&self) -> usize {
        self.active_chat
    }

    pub closed spec fn spec_chats(&self) -> Map<usize, Chat> {
        self.chats@
    }

    /// A page without conversations, showing identifier 0.
    pub fn new() -> (r: ChatPage)
        ensures
            r.spec_active_chat() == 0,
            r.spec_chats() == Map::<usize, Chat>::empty(),
    {
        ChatPage { active_chat: 0, chats: HashMap::new() }
    }

    /// Records a packet exchanged with the connection `foreign_stable_id`,
    /// opening a conversation for it where there is none.
    pub fn add_packet(&mut self, foreign_stable_id: usize, local: bool, packet: Packet) -> (r: Res<
        (),
    >)
        ensures
            r is Ok,
            final(self).spec_chats().dom() == old(self).spec_chats().dom().insert(foreign_stable_id),
            forall|k: usize|
                k != foreign_stable_id && #[trigger] old(self).spec_chats().contains_key(k)
                    ==> final(self).spec_chats()[k] == old(self).spec_chats()[k],
            ({
                let c = final(self).spec_chats()[foreign_stable_id];
                (c.spec_username(), c.spec_packets()) == chat_extended(
                    old(self).spec_chats().get(foreign_stable_id),
                    local,
                    packet,
                )
            }),
            final(self).spec_active_chat() == old(self).spec_active_chat(),
    {
        let mut chat = match self.chats.remove(&foreign_stable_id) {
            Some(c) => c,
            None => Chat::new(),
        };
        chat.add_packet(local, packet);
        proof {
            assert(chat.spec_packets() =~= chat_extended(
                old(self).spec_chats().get(foreign_stable_id),
                local,
                packet,
            ).1);
        }
        let _ = self.chats.insert(foreign_stable_id, chat);
        proof {
            assert(self.chats@.dom() =~= old(self).chats@.dom().insert(foreign_stable_id));
        }
        Ok(())
    }

    /// Shows the conversation with `stable_id`.
    pub fn set_active_chat(&mut self, stable_id: usize)
        ensures
            final(self).spec_active_chat() == stable_id,
            final(self).spec_chats() == old(self).spec_chats(),
    {
        self.active_chat = stable_id;
    }

    /// The identifier of the conversation on show.
    pub fn active_chat(&self) -> (r: usize)
        ensures
            r == self.spec_active_chat(),
    {
        self.active_chat
    }

    /// The conversation with `stable_id`, if any.
    pub fn chat(&self, stable_id: usize) -> (r: Option<&Chat>)
        ensures
            match r {
                Some(c) => self.spec_chats().contains_key(stable_id) && *c
                    == self.spec_chats()[stable_id],
                None => !self.spec_chats().contains_key(stable_id),
            },
    {
        self.chats.get(&stable_id)
    }

    /// The index that the next packet recorded for `stable_id` will have.
    pub fn next_unique_id(&self, stable_id: usize) -> (r: usize)
        ensures
            r == match self.spec_chats().get(stable_id) {
                Some(c) => c.spec_packets().len(),
                None => 0,
            },
    {
        match self.chats.get(&stable_id) {
            Some(c) => c.get_unique_id(),
            None => 0,
        }
    }

    /// Sets the state of entry `unique_id` of the conversation with
    /// `stable_id`; nothing changes where either is unknown.
    pub fn update_state(&mut self, stable_id: usize, unique_id: usize, state: PacketState)
        ensures
            final(self).spec_active_chat() == old(self).spec_active_chat(),
            final(self).spec_chats().dom() == old(self).spec_chats().dom(),
            forall|k: usize|
                k != stable_id && #[trigger] old(self).spec_chats().contains_key(k)
                    ==> final(self).spec_chats()[k] == old(self).spec_chats()[k],
            old(self).spec_chats().contains_key(stable_id) ==> {
                let before = old(self).spec_chats()[stable_id].spec_packets();
                let after = final(self).spec_chats()[stable_id];
                &&& after.spec_username() == old(self).spec_chats()[stable_id].spec_username()
                &&& after.spec_packets() == if unique_id < before.len() {
                    before.update(
                        unique_id as int,
                        (before[unique_id as int].0, before[unique_id as int].1, state),
                    )
                } else {
                    before
                }
            },
    {
        match self.chats.remove(&stable_id) {
            Some(c) => {
                let mut chat = c;
                chat.update_state(unique_id, state);
                let _ = self.chats.insert(stable_id, chat);
                proof {
                    assert(self.chats@.dom() =~= old(self).chats@.dom());
                }
            },
            None => {},
        }
    }
}

} // verus!
