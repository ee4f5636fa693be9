use vstd::prelude::*;

use crate::error::ChannelError;
use crate::packet::Packet;

verus! {

/// async_channel's sending half, carried as an opaque value.
#[verifier::external_type_specification]
#[verifier::external_body]
#[verifier::reject_recursive_types(T)]
pub struct ExSender<T>(async_channel::Sender<T>);

/// async_channel's receiving half, carried as an opaque value.
#[verifier::external_type_specification]
#[verifier::external_body]
#[verifier::reject_recursive_types(T)]
pub struct ExReceiver<T>(async_channel::Receiver<T>);

/// The terminal outcome of a tracked send.
#[derive(Debug, Clone, Copy, PartialEq, Eq, Structural)]
pub enum TrackedPacketResponse {
    Confirmed,
    Failed,
}

/// The receiving side of a confirmation channel.
pub type ConfirmationReceiver = async_channel::Receiver<TrackedPacketResponse>;

/// Relies on async_channel::bounded: a channel with a single slot.
#[verifier::external_body]
fn confirmation_channel() -> (async_channel::Sender<TrackedPacketResponse>, ConfirmationReceiver) {
    async_channel::bounded(1)
}

/// Relies on async_channel::Sender::try_send: offers the outcome without
/// waiting; `false` when the receiver is gone or the slot is taken.
#[verifier::external_body]
fn offer(sender: &async_channel::Sender<TrackedPacketResponse>, outcome: TrackedPacketResponse) -> bool {
    sender.try_send(outcome).is_ok()
}

/// Where the payload of a tracked packet stands.
#[derive(Debug)]
pub enum Payload {
    Pending(Packet),
    Taken,
}

/// An outbound packet bound for one connection, with the single-use channel on
/// which the sender learns whether it was confirmed.
#[derive(Debug)]
pub struct TrackedPacket {
    destination: usize,
    payload: Payload,
    outcome: Option<TrackedPacketResponse>,
    confirmation: async_channel::Sender<TrackedPacketResponse>,
}

/// The outcome held after publishing `outcome`: the first one published stays.
pub open spec fn first_outcome(
    prev: Option<TrackedPacketResponse>,
    outcome: TrackedPacketResponse,
) -> Option<TrackedPacketResponse> {
    match prev {
        Some(first) => Some(first),
        None => Some(outcome),
    }
}

/// `after` is `before` once its payload was taken, the take having returned `r`.
pub open spec fn took_payload(before: TrackedPacket, after: TrackedPacket, r: Option<Packet>) -> bool {
    &&& r == before.spec_payload()
    &&& after.spec_payload() == None::<Packet>
    &&& after.spec_destination() == before.spec_destination()
    &&& after.spec_outcome() == before.spec_outcome()
}

/// `after` is `before` once `outcome` was offered on its confirmation channel.
pub open spec fn resolved(
    before: TrackedPacket,
    after: TrackedPacket,
    outcome: TrackedPacketResponse,
) -> bool {
    &&& after.spec_outcome() == first_outcome(before.spec_outcome(), outcome)
    &&& after.spec_payload() == before.spec_payload()
    &&& after.spec_destination() == before.spec_destination()
}

/// Payload extraction is at most once: of two successive takes the first finds
/// what the packet held and the second finds nothing; a packet whose outcome is
/// still open and is then failed holds `Failed`.
pub proof fn lemma_take_at_most_once(
    a: TrackedPacket,
    b: TrackedPacket,
    c: TrackedPacket,
    d: TrackedPacket,
    first: Option<Packet>,
    second: Option<Packet>,
)
    requires
        took_payload(a, b, first),
        took_payload(b, c, second),
        resolved(c, d, TrackedPacketResponse::Failed),
        a.spec_outcome() is None,
    ensures
        first == a.spec_payload(),
        second is None,
        d.spec_outcome() == Some(TrackedPacketResponse::Failed),
        d.spec_payload() is None,
{
}

impl TrackedPacket {
    /// The identifier of the connection the packet is bound for.
    pub closed spec fn spec_destination(&self) -> usize {
        self.destination
    }

    /// The packet, while it has not been taken.
    pub closed spec fn spec_payload(&self) -> Option<Packet> {
        match self.payload {
            Payload::Pending(p) => Some(p),
            Payload::Taken => None,
        }
    }

    /// The outcome published so far, if any.
    pub closed spec fn spec_outcome(&self) -> Option<TrackedPacketResponse> {
        self.outcome
    }

    /// A tracked packet for `destination`, and the receiver of its outcome.
    pub fn new(destination: usize, packet: Packet) -> (r: (TrackedPacket, ConfirmationReceiver))
        ensures
            r.0.spec_destination() == destination,
            r.0.spec_payload() == Some(packet),
            r.0.spec_outcome() == None::<TrackedPacketResponse>,
    {
        let (sender, receiver) = confirmation_channel();
        (
            TrackedPacket {
                destination,
                payload: Payload::Pending(packet),
                outcome: None,
                confirmation: sender,
            },
            receiver,
        )
    }

    /// The identifier of the connection the packet is bound for.
    pub fn destination(&self) -> (r: usize)
        ensures
            r == self.spec_destination(),
    {
        self.destination
    }

    /// The outcome published so far, if any.
    pub fn outcome(&self) -> (r: Option<TrackedPacketResponse>)
        ensures
            r == self.spec_outcome(),
    {
        self.outcome
    }

    /// Takes the packet out. Only the first call finds it; every later call
    /// returns `None`.
    pub fn take_payload(&mut self) -> (r: Option<Packet>)
        ensures
            took_payload(*old(self), *final(self), r),
    {
        let mut taken = Payload::Taken;
        std::mem::swap(&mut self.payload, &mut taken);
        match taken {
            Payload::Pending(p) => Some(p),
            Payload::Taken => None,
        }
    }

    /// Publishes a terminal outcome, unless one was published before. An
    /// error says only that nobody listens any more; it is not fatal.
    pub fn resolve(&mut self, outcome: TrackedPacketResponse) -> (r: Result<(), ChannelError>)
        ensures
            resolved(*old(self), *final(self), outcome),
            old(self).spec_outcome() is Some ==> r is Ok,
            r is Err ==> r == Err::<(), ChannelError>(ChannelError::ChannelDead),
    {
        if self.outcome.is_some() {
            return Ok(());
        }
        self.outcome = Some(outcome);
        if offer(&self.confirmation, outcome) {
            Ok(())
        } else {
            Err(ChannelError::ChannelDead)
        }
    }

    /// Publishes `Confirmed`, unless an outcome was published before.
    pub fn confirm(&mut self) -> (r: Result<(), ChannelError>)
        ensures
            resolved(*old(self), *final(self), TrackedPacketResponse::Confirmed),
            old(self).spec_outcome() is Some ==> r is Ok,
            r is Err ==> r == Err::<(), ChannelError>(ChannelError::ChannelDead),
    {
        self.resolve(TrackedPacketResponse::Confirmed)
    }

    /// Publishes `Failed`, unless an outcome was published before.
    pub fn fail(&mut self) -> (r: Result<(), ChannelError>)
        ensures
            resolved(*old(self), *final(self), TrackedPacketResponse::Failed),
            old(self).spec_outcome() is Some ==> r is Ok,
            r is Err ==> r == Err::<(), ChannelError>(ChannelError::ChannelDead),
    {
        self.resolve(TrackedPacketResponse::Failed)
    }
}

} // verus!
