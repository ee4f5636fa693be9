use std::collections::HashMap;

use vstd::prelude::*;

use crate::delivery::{first_outcome, resolved, took_payload, TrackedPacket, TrackedPacketResponse};
use crate::error::{Error, NetworkError, Res};
use crate::exchange::{echo_verdict, lemma_confirmation_matching, CODE_LEN};
use crate::packet::{be_bytes, kind_is_verifiable, Packet, PacketType};

verus! {

broadcast use vstd::std_specs::hash::group_hash_axioms;

/// One live connection: its identifier and the handle through which
/// exchanges are opened on it.
#[derive(Debug, Clone)]
pub struct Foreign<H> {
    stable_id: usize,
    handle: H,
}

impl<H> Foreign<H> {
    pub closed spec fn spec_stable_id(&self) -> usize {
        self.stable_id
    }

    pub closed spec fn spec_handle(&self) -> H {
        self.handle
    }

    /// A peer for the connection `stable_id`, reached through `handle`.
    pub fn new(stable_id: usize, handle: H) -> (r: Foreign<H>)
        ensures
            r.spec_stable_id() == stable_id,
            r.spec_handle() == handle,
    {
        Foreign { stable_id, handle }
    }

    /// The identifier of this connection; it holds only while the
    /// connection lives.
    pub fn stable_id(&self) -> (r: usize)
        ensures
            r == self.spec_stable_id(),
    {
        self.stable_id
    }

    /// The handle through which exchanges are opened.
    pub fn handle(&self) -> (r: &H)
        ensures
            *r == self.spec_handle(),
    {
        &self.handle
    }
}

/// Control messages, handled by the registry one at a time in arrival order.
#[derive(Debug)]
pub enum ConnectionManagerMessage<H> {
    Quit,
    Add(Foreign<H>),
    Message(TrackedPacket),
    Error(Error),
}

/// Lifecycle and error events published by the registry.
#[derive(Debug, Clone, PartialEq, Eq)]
pub enum ConnectionEvent {
    SuccessfulConnection(usize),
    Error(Error),
}

/// What the registry's owner is to do after one control message.
#[derive(Debug)]
pub enum ManagerAction {
    /// Publish an event.
    Publish(ConnectionEvent),
    /// Send the packet to the peer registered under the tracked packet's
    /// destination, then settle the tracked packet with the verdict.
    Dispatch(Packet, TrackedPacket),
    /// The payload had already been taken; `Failed` has been offered.
    Rejected(TrackedPacket),
    /// No peer under the destination: the packet is dropped, nothing offered.
    Undeliverable(TrackedPacket),
    /// Stop handling messages.
    Quit,
}

/// The peers after one control message.
pub open spec fn next_peers<H>(
    peers: Map<usize, Foreign<H>>,
    msg: ConnectionManagerMessage<H>,
) -> Map<usize, Foreign<H>> {
    match msg {
        ConnectionManagerMessage::Add(f) => peers.insert(f.spec_stable_id(), f),
        _ => peers,
    }
}

/// The peers of a registry that started empty and handled `msgs` in order.
pub open spec fn peers_after<H>(msgs: Seq<ConnectionManagerMessage<H>>) -> Map<
    usize,
    Foreign<H>,
>
    decreases msgs.len(),
{
    if msgs.len() == 0 {
        Map::empty()
    } else {
        next_peers(peers_after(msgs.drop_last()), msgs.last())
    }
}

/// Whether `msg` adds a peer under `id`.
pub open spec fn adds_peer<H>(msg: ConnectionManagerMessage<H>, id: usize) -> bool {
    match msg {
        ConnectionManagerMessage::Add(f) => f.spec_stable_id() == id,
        _ => false,
    }
}

/// The event published once a send has been judged.
pub open spec fn settle_event(verdict: Res<bool>) -> Option<ConnectionEvent> {
    match verdict {
        Ok(true) => None,
        Ok(false) => Some(ConnectionEvent::Error(Error::NetworkError(NetworkError::InvalidCode))),
        Err(e) => Some(ConnectionEvent::Error(e)),
    }
}

/// The outcome offered once a send of a `kind` packet has been judged;
/// packets that are not verifiable are offered nothing.
pub open spec fn settle_outcome(kind: PacketType, verdict: Res<bool>) -> Option<
    TrackedPacketResponse,
> {
    if !kind_is_verifiable(kind) {
        None
    } else if verdict == Ok::<bool, Error>(true) {
        Some(TrackedPacketResponse::Confirmed)
    } else {
        Some(TrackedPacketResponse::Failed)
    }
}

/// Settles a dispatched packet of kind `kind` with the verdict on its send:
/// a verifiable packet is confirmed on a matching echo and failed otherwise;
/// a mismatch or a failure of the exchange comes back as an error event.
pub fn settle(packet: &mut TrackedPacket, kind: PacketType, verdict: Res<bool>) -> (r: Option<
    ConnectionEvent,
>)
    ensures
        r == settle_event(verdict),
        match settle_outcome(kind, verdict) {
            Some(outcome) => resolved(*old(packet), *final(packet), outcome),
            None => *final(packet) == *old(packet),
        },
{
    let verifiable = kind.is_verifiable();
    match verdict {
        Ok(true) => {
            if verifiable {
                let _ = packet.confirm();
            }
            None
        },
        Ok(false) => {
            if verifiable {
                let _ = packet.fail();
            }
            Some(ConnectionEvent::Error(Error::NetworkError(NetworkError::InvalidCode)))
        },
        Err(e) => {
            if verifiable {
                let _ = packet.fail();
            }
            Some(ConnectionEvent::Error(e))
        },
    }
}

/// The map from connection identifier to peer. Only its owner mutates it,
/// one control message at a time.
pub struct ConnectionRegistry<H> {
    peers: HashMap<usize, Foreign<H>>,
}

impl<H> View for ConnectionRegistry<H> {
    type V = Map<usize, Foreign<H>>;

    closed spec fn view(&self) -> Map<usize, Foreign<H>> {
        self.peers@
    }
}

impl<H> ConnectionRegistry<H> {
    /// A registry without peers.
    pub fn new() -> (r: ConnectionRegistry<H>)
        ensures
            r@ == Map::<usize, Foreign<H>>::empty(),
    {
        ConnectionRegistry { peers: HashMap::new() }
    }

    /// The peer registered under `id`.
    pub fn peer(&self, id: usize) -> (r: Option<&Foreign<H>>)
        ensures
            match r {
                Some(f) => self@.contains_key(id) && *f == self@[id],
                None => !self@.contains_key(id),
            },
    {
        self.peers.get(&id)
    }

    /// Handles one control message.
    ///
    /// `Add` publishes the new connection and registers the peer, replacing
    /// any peer under the same identifier. `Message` takes the payload: if it
    /// was already taken the packet is failed; if no peer is registered under
    /// its destination it is dropped with nothing offered; otherwise it is to
    /// be dispatched. `Error` is republished and `Quit` stops the registry.
    pub fn handle(&mut self, msg: ConnectionManagerMessage<H>) -> (r: ManagerAction)
        ensures
            final(self)@ == next_peers(old(self)@, msg),
            match msg {
                ConnectionManagerMessage::Quit => r is Quit,
                ConnectionManagerMessage::Add(f) => r == ManagerAction::Publish(
                    ConnectionEvent::SuccessfulConnection(f.spec_stable_id()),
                ),
                ConnectionManagerMessage::Error(e) => r == ManagerAction::Publish(
                    ConnectionEvent::Error(e),
                ),
                ConnectionManagerMessage::Message(t) => match t.spec_payload() {
                    None => match r {
                        ManagerAction::Rejected(t2) => resolved(
                            t,
                            t2,
                            TrackedPacketResponse::Failed,
                        ),
                        _ => false,
                    },
                    Some(p) => if old(self)@.contains_key(t.spec_destination()) {
                        match r {
                            ManagerAction::Dispatch(p2, t2) => p2 == p && took_payload(
                                t,
                                t2,
                                Some(p),
                            ),
                            _ => false,
                        }
                    } else {
                        match r {
                            ManagerAction::Undeliverable(t2) => took_payload(t, t2, Some(p)),
                            _ => false,
                        }
                    },
                },
            },
    {
        match msg {
            ConnectionManagerMessage::Quit => ManagerAction::Quit,
            ConnectionManagerMessage::Add(f) => {
                let id = f.stable_id();
                let _ = self.peers.insert(id, f);
                ManagerAction::Publish(ConnectionEvent::SuccessfulConnection(id))
            },
            ConnectionManagerMessage::Error(e) => ManagerAction::Publish(ConnectionEvent::Error(e)),
            ConnectionManagerMessage::Message(t) => {
                let mut t = t;
                match t.take_payload() {
                    None => {
                        let _ = t.fail();
                        ManagerAction::Rejected(t)
                    },
                    Some(p) => {
                        if self.peers.contains_key(&t.destination()) {
                            ManagerAction::Dispatch(p, t)
                        } else {
                            ManagerAction::Undeliverable(t)
                        }
                    },
                }
            },
        }
    }
}

/// Registry routing: a registry that started empty and handled `msgs` holds
/// no peer under an identifier that no `Add` among them carried, so a send
/// request bound there is dropped with no outcome offered.
pub proof fn lemma_unknown_destination_dropped<H>(msgs: Seq<ConnectionManagerMessage<H>>, id: usize)
    requires
        forall|i: int| 0 <= i < msgs.len() ==> !adds_peer(#[trigger] msgs[i], id),
    ensures
        !peers_after(msgs).contains_key(id),
    decreases msgs.len(),
{
    if msgs.len() > 0 {
        let init = msgs.drop_last();
        assert forall|i: int| 0 <= i < init.len() implies !adds_peer(#[trigger] init[i], id) by {
            assert(init[i] == msgs[i]);
        }
        lemma_unknown_destination_dropped(init, id);
        assert(!adds_peer(msgs[msgs.len() - 1], id));
    }
}

/// A verifiable packet whose own code is echoed back is confirmed; one that
/// gets any other four bytes back is failed and reported as an invalid code.
pub proof fn lemma_echo_settles(kind: PacketType, code: u32, echo: Seq<u8>)
    requires
        kind_is_verifiable(kind),
    ensures
        settle_outcome(kind, echo_verdict(code, be_bytes(code))) == Some(
            TrackedPacketResponse::Confirmed,
        ),
        settle_event(echo_verdict(code, be_bytes(code))) is None,
        echo.len() == CODE_LEN && echo != be_bytes(code) ==> settle_outcome(
            kind,
            echo_verdict(code, echo),
        ) == Some(TrackedPacketResponse::Failed) && settle_event(echo_verdict(code, echo))
            == Some(ConnectionEvent::Error(Error::NetworkError(NetworkError::InvalidCode))),
{
    lemma_confirmation_matching(code, echo);
}

} // verus!
