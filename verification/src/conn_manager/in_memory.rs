//! A transport that lives in memory: every peer of the process shares one
//! channel, takes from it what is addressed to it and drops the rest.

use vstd::prelude::*;
use crate::conn_manager::wire::{
    open_wire, share_receiver, share_sender, wire_capacity, wire_try_recv, wire_try_send,
    MessageOnTransit, SendOutcome, WireEvent,
};
use crate::conn_manager::{ConnError, PeerKey, PeerKeyLocation, Transport};
use crate::message::Message;
use crate::ring::Location;

verus! {

/// What the loop that polls the network does after one step.
#[derive(Clone, Copy, Debug, PartialEq, Eq, Structural)]
pub enum PollAction {
    /// Poll again at once.
    Again,
    /// Let one poll interval pass, then poll again.
    Wait,
    /// End: the network is gone for good.
    Stop,
}

/// The envelope that `origin`, which stands at `origin_loc` on the ring if it
/// has joined, puts on the network for `target`.
pub open spec fn envelope_of(
    origin: PeerKey,
    origin_loc: Option<Location>,
    target: PeerKey,
    data: Vec<u8>,
) -> MessageOnTransit {
    MessageOnTransit { origin, origin_loc, target, data }
}

/// What a peer hands to the network for `target`: nothing, and the error that
/// says so, while the position of `target` is unknown; else the envelope for
/// it.
pub open spec fn outbound_of(
    origin: PeerKey,
    origin_loc: Option<Location>,
    target: PeerKeyLocation,
    data: Vec<u8>,
) -> Result<MessageOnTransit, ConnError> {
    match target.location {
        None => Err(ConnError::LocationUnknown),
        Some(_) => Ok(envelope_of(origin, origin_loc, target.peer, data)),
    }
}

/// Every envelope of `inbox` is addressed to `peer`.
pub open spec fn all_addressed_to(peer: PeerKey, inbox: Seq<MessageOnTransit>) -> bool {
    forall|i: int| 0 <= i < inbox.len() ==> (#[trigger] inbox[i]).target == peer
}

/// The inbox of `peer` after one poll of the network gave `event`: an envelope
/// for `peer` is kept, behind those already there; nothing else changes it.
pub open spec fn inbox_after(
    peer: PeerKey,
    inbox: Seq<MessageOnTransit>,
    event: WireEvent,
) -> Seq<MessageOnTransit> {
    match event {
        WireEvent::Envelope(envelope) => if envelope.target == peer {
            inbox.push(envelope)
        } else {
            inbox
        },
        _ => inbox,
    }
}

/// What the polling loop of `peer` does after `event`.
pub open spec fn action_after(peer: PeerKey, event: WireEvent) -> PollAction {
    match event {
        WireEvent::Envelope(envelope) => if envelope.target == peer {
            PollAction::Again
        } else {
            PollAction::Wait
        },
        WireEvent::Empty => PollAction::Wait,
        WireEvent::Disconnected => PollAction::Stop,
    }
}

/// What is taken from a queue: the entry that came last, if there is any.
pub open spec fn taken_from<T>(queue: Seq<T>) -> Option<T> {
    if queue.len() > 0 {
        Some(queue.last())
    } else {
        None
    }
}

/// The queue after its last entry, if there is any, was taken.
pub open spec fn rest_of<T>(queue: Seq<T>) -> Seq<T> {
    if queue.len() > 0 {
        queue.drop_last()
    } else {
        queue
    }
}

impl SendOutcome {
    /// What the sender is told: only an envelope that the network took counts
    /// as sent.
    pub open spec fn result(self) -> Result<(), ConnError> {
        match self {
            SendOutcome::Sent => Ok(()),
            _ => Err(ConnError::TransportClosed),
        }
    }

    pub fn into_result(self) -> (result: Result<(), ConnError>)
        ensures
            result == self.result(),
    {
        match self {
            SendOutcome::Sent => Ok(()),
            SendOutcome::Full => Err(ConnError::TransportClosed),
            SendOutcome::Disconnected => Err(ConnError::TransportClosed),
        }
    }
}

/// The network of one process: a channel without a capacity bound that all its
/// peers send into and poll. It is made once and handed to each peer.
pub struct Fabric {
    tx: crossbeam::channel::Sender<MessageOnTransit>,
    rx: crossbeam::channel::Receiver<MessageOnTransit>,
}

impl Fabric {
    #[verifier::type_invariant]
    spec fn unbounded(self) -> bool {
        wire_capacity(self.tx) is None
    }

    /// The bound on the envelopes that the network holds at a time.
    pub closed spec fn capacity(&self) -> Option<nat> {
        wire_capacity(self.tx)
    }

    pub fn new() -> (fabric: Fabric)
        ensures
            fabric.capacity() is None,
    {
        let (tx, rx) = open_wire();
        Fabric { tx, rx }
    }
}

/// One peer's end of the network: who it is, what it says of itself, and the
/// envelopes that came for it and were not taken up yet.
pub struct InMemoryTransport {
    interface_peer: PeerKey,
    location: Option<Location>,
    is_open: bool,
    /// Envelopes for this peer that await processing; the last is taken first.
    msg_stack_queue: Vec<MessageOnTransit>,
    /// Where envelopes go out.
    network: crossbeam::channel::Sender<MessageOnTransit>,
    /// Where envelopes come in, those for other peers too.
    wire: crossbeam::channel::Receiver<MessageOnTransit>,
}

impl InMemoryTransport {
    #[verifier::type_invariant]
    spec fn inv(self) -> bool {
        &&& wire_capacity(self.network) is None
        &&& all_addressed_to(self.interface_peer, self.msg_stack_queue@)
    }

    /// The peer this transport is the end of.
    pub closed spec fn peer(&self) -> PeerKey {
        self.interface_peer
    }

    /// The envelopes that await processing, oldest first.
    pub closed spec fn inbox(&self) -> Seq<MessageOnTransit> {
        self.msg_stack_queue@
    }

    /// The end of `fabric` that belongs to `interface_peer`, with nothing in
    /// its inbox.
    pub fn new(
        is_open: bool,
        interface_peer: PeerKey,
        location: Option<Location>,
        fabric: &Fabric,
    ) -> (transport: InMemoryTransport)
        ensures
            transport.peer() == interface_peer,
            transport.position() == location,
            transport.open() == is_open,
            transport.inbox() == Seq::<MessageOnTransit>::empty(),
    {
        proof {
            use_type_invariant(fabric);
        }
        InMemoryTransport {
            interface_peer,
            location,
            is_open,
            msg_stack_queue: Vec::new(),
            network: share_sender(&fabric.tx),
            wire: share_receiver(&fabric.rx),
        }
    }

    /// The envelope that `send` puts on the network: from this peer, with
    /// this peer's own position, for `peer`.
    pub fn envelope(&self, peer: PeerKey, message: Vec<u8>) -> (envelope: MessageOnTransit)
        ensures
            envelope == envelope_of(self.peer(), self.position(), peer, message),
    {
        MessageOnTransit {
            origin: self.interface_peer,
            origin_loc: self.location,
            target: peer,
            data: message,
        }
    }

    /// Puts `message` on the network for `peer`, which stands at `location`.
    ///
    /// Every peer polls the one network, so no route is taken from `location`
    /// and it does not enter the envelope. Whether the network takes the
    /// envelope is for the network to say. That it is full is not among its
    /// answers: the network has no capacity bound.
    #[allow(unused_variables)]
    pub fn send(&self, peer: PeerKey, location: Location, message: Vec<u8>) -> (result: Result<
        (),
        ConnError,
    >)
        ensures
            result == Ok::<(), ConnError>(()) || result == Err::<(), ConnError>(
                ConnError::TransportClosed,
            ),
    {
        let envelope = self.envelope(peer, message);
        self.dispatch(envelope)
    }

    /// Hands a finished envelope to the network.
    fn dispatch(&self, envelope: MessageOnTransit) -> (result: Result<(), ConnError>)
        ensures
            result == Ok::<(), ConnError>(()) || result == Err::<(), ConnError>(
                ConnError::TransportClosed,
            ),
    {
        let outcome = wire_try_send(&self.network, envelope);
        proof {
            use_type_invariant(self);
        }
        assert(!(outcome is Full));
        outcome.into_result()
    }

    /// One step of the loop that fills the inbox, for what the network gave:
    /// an envelope for this peer is kept, one for another peer is dropped.
    pub fn on_wire_event(&mut self, event: WireEvent) -> (action: PollAction)
        ensures
            action == action_after(old(self).peer(), event),
            final(self).inbox() == inbox_after(old(self).peer(), old(self).inbox(), event),
            all_addressed_to(final(self).peer(), final(self).inbox()),
            final(self).peer() == old(self).peer(),
            final(self).position() == old(self).position(),
            final(self).open() == old(self).open(),
    {
        proof {
            use_type_invariant(&*self);
        }
        match event {
            WireEvent::Envelope(envelope) => {
                if envelope.target == self.interface_peer {
                    // The invariant speaks of the queue, so the queue is taken
                    // out while it changes and put back when it is whole.
                    let mut queue: Vec<MessageOnTransit> = Vec::new();
                    std::mem::swap(&mut self.msg_stack_queue, &mut queue);
                    queue.push(envelope);
                    std::mem::swap(&mut self.msg_stack_queue, &mut queue);
                    PollAction::Again
                } else {
                    PollAction::Wait
                }
            },
            WireEvent::Empty => PollAction::Wait,
            WireEvent::Disconnected => PollAction::Stop,
        }
    }

    /// Polls the network once and takes the step that follows from what it
    /// gave.
    pub fn poll_network(&mut self) -> (action: PollAction)
        ensures
            exists|event: WireEvent|
                {
                    &&& action == #[trigger] action_after(old(self).peer(), event)
                    &&& final(self).inbox() == inbox_after(
                        old(self).peer(),
                        old(self).inbox(),
                        event,
                    )
                },
            all_addressed_to(final(self).peer(), final(self).inbox()),
            final(self).peer() == old(self).peer(),
            final(self).position() == old(self).position(),
            final(self).open() == old(self).open(),
    {
        let event = wire_try_recv(&self.wire);
        let ghost seen = event;
        let action = self.on_wire_event(event);
        assert(action == action_after(old(self).peer(), seen));
        action
    }

    /// Takes the envelope that came last out of the inbox.
    pub fn take_inbound(&mut self) -> (envelope: Option<MessageOnTransit>)
        ensures
            envelope == taken_from(old(self).inbox()),
            final(self).inbox() == rest_of(old(self).inbox()),
            envelope matches Some(taken) ==> taken.target == old(self).peer(),
            all_addressed_to(final(self).peer(), final(self).inbox()),
            final(self).peer() == old(self).peer(),
            final(self).position() == old(self).position(),
            final(self).open() == old(self).open(),
    {
        proof {
            use_type_invariant(&*self);
        }
        let mut queue: Vec<MessageOnTransit> = Vec::new();
        std::mem::swap(&mut self.msg_stack_queue, &mut queue);
        let envelope = queue.pop();
        std::mem::swap(&mut self.msg_stack_queue, &mut queue);
        envelope
    }
}

impl Transport for InMemoryTransport {
    closed spec fn open(&self) -> bool {
        self.is_open
    }

    closed spec fn position(&self) -> Option<Location> {
        self.location
    }

    fn is_open(&self) -> (open: bool) {
        self.is_open
    }

    fn location(&self) -> (location: Option<Location>) {
        self.location
    }
}

/// The connection of one peer to the other peers of the process: its end of
/// the network, and the messages that came for it and were decoded, waiting to
/// be received.
pub struct MemoryConnManager {
    pub transport: InMemoryTransport,
    msg_queue: Vec<Message>,
}

impl MemoryConnManager {
    /// This peer's end of the network.
    pub closed spec fn transport_view(&self) -> InMemoryTransport {
        self.transport
    }

    /// The decoded messages that wait to be received, oldest first.
    pub closed spec fn queue(&self) -> Seq<Message> {
        self.msg_queue@
    }

    /// The connection of `peer` to `fabric`, with nothing received yet.
    pub fn new(is_open: bool, peer: PeerKey, location: Option<Location>, fabric: &Fabric) -> (manager:
        MemoryConnManager)
        ensures
            manager.transport_view().peer() == peer,
            manager.transport_view().position() == location,
            manager.transport_view().open() == is_open,
            manager.transport_view().inbox() == Seq::<MessageOnTransit>::empty(),
            manager.queue() == Seq::<Message>::empty(),
    {
        let transport = InMemoryTransport::new(is_open, peer, location, fabric);
        MemoryConnManager { transport, msg_queue: Vec::new() }
    }

    /// What `send` hands to the network for `target`: no envelope while the
    /// position of `target` is unknown, else the envelope that carries `msg`
    /// from this peer to it.
    pub fn outbound(&self, target: &PeerKeyLocation, msg: Vec<u8>) -> (result: Result<
        MessageOnTransit,
        ConnError,
    >)
        ensures
            result == outbound_of(
                self.transport_view().peer(),
                self.transport_view().position(),
                *target,
                msg,
            ),
    {
        match target.location {
            None => Err(ConnError::LocationUnknown),
            Some(_) => Ok(self.transport.envelope(target.peer, msg)),
        }
    }

    /// Sends the encoded message `msg` to `target`.
    ///
    /// A target without a position is refused, and the network is not asked.
    /// Otherwise the network decides.
    pub fn send(&self, target: &PeerKeyLocation, msg: Vec<u8>) -> (result: Result<(), ConnError>)
        ensures
            target.location is None ==> result == Err::<(), ConnError>(ConnError::LocationUnknown),
            target.location is Some ==> result == Ok::<(), ConnError>(()) || result == Err::<
                (),
                ConnError,
            >(ConnError::TransportClosed),
    {
        match self.outbound(target, msg) {
            Err(refusal) => Err(refusal),
            Ok(envelope) => self.transport.dispatch(envelope),
        }
    }

    /// Polls the network once for this peer and takes the step that follows
    /// from what it gave. The messages that wait to be received stay as they
    /// are.
    pub fn poll_network(&mut self) -> (action: PollAction)
        ensures
            exists|event: WireEvent|
                {
                    &&& action == #[trigger] action_after(old(self).transport_view().peer(), event)
                    &&& final(self).transport_view().inbox() == inbox_after(
                        old(self).transport_view().peer(),
                        old(self).transport_view().inbox(),
                        event,
                    )
                },
            all_addressed_to(
                final(self).transport_view().peer(),
                final(self).transport_view().inbox(),
            ),
            final(self).transport_view().peer() == old(self).transport_view().peer(),
            final(self).transport_view().position() == old(self).transport_view().position(),
            final(self).transport_view().open() == old(self).transport_view().open(),
            final(self).queue() == old(self).queue(),
    {
        self.transport.poll_network()
    }

    /// Takes the envelope that came last out of the transport's inbox and
    /// hands out the encoded message in it.
    pub fn next_inbound(&mut self) -> (data: Option<Vec<u8>>)
        ensures
            data == match taken_from(old(self).transport_view().inbox()) {
                Some(envelope) => Some(envelope.data),
                None => None,
            },
            final(self).transport_view().inbox() == rest_of(old(self).transport_view().inbox()),
            final(self).transport_view().peer() == old(self).transport_view().peer(),
            final(self).transport_view().position() == old(self).transport_view().position(),
            final(self).transport_view().open() == old(self).transport_view().open(),
            final(self).queue() == old(self).queue(),
    {
        match self.transport.take_inbound() {
            Some(envelope) => Some(envelope.data),
            None => None,
        }
    }

    /// Puts a decoded message behind those that wait to be received.
    pub fn deliver(&mut self, msg: Message)
        ensures
            final(self).queue() == old(self).queue().push(msg),
            final(self).transport_view() == old(self).transport_view(),
    {
        self.msg_queue.push(msg);
    }

    /// The message that was delivered last, if one is waiting.
    pub fn try_recv(&mut self) -> (msg: Option<Message>)
        ensures
            msg == taken_from(old(self).queue()),
            final(self).queue() == rest_of(old(self).queue()),
            final(self).transport_view() == old(self).transport_view(),
    {
        self.msg_queue.pop()
    }

    /// Takes note of a connection to `peer`. Every peer of the process is
    /// connected to every other from the start, so nothing changes.
    pub fn add_connection(&mut self, peer: PeerKeyLocation, unsolicited: bool)
        ensures
            *final(self) == *old(self),
    {
    }
}

impl Transport for MemoryConnManager {
    open spec fn open(&self) -> bool {
        self.transport_view().open()
    }

    open spec fn position(&self) -> Option<Location> {
        self.transport_view().position()
    }

    fn is_open(&self) -> (open: bool) {
        self.transport.is_open()
    }

    fn location(&self) -> (location: Option<Location>) {
        self.transport.location()
    }
}

/// An envelope for another peer never enters the inbox: the step drops it and
/// the loop waits.
pub proof fn lemma_foreign_envelope_is_dropped(
    peer: PeerKey,
    inbox: Seq<MessageOnTransit>,
    envelope: MessageOnTransit,
)
    requires
        envelope.target != peer,
    ensures
        inbox_after(peer, inbox, WireEvent::Envelope(envelope)) == inbox,
        action_after(peer, WireEvent::Envelope(envelope)) == PollAction::Wait,
{
}

/// Whatever the network gives, an inbox that holds only envelopes for its
/// peer still does so after the step.
pub proof fn lemma_inbox_stays_own(peer: PeerKey, inbox: Seq<MessageOnTransit>, event: WireEvent)
    requires
        all_addressed_to(peer, inbox),
    ensures
        all_addressed_to(peer, inbox_after(peer, inbox, event)),
{
}

/// No envelope is in the inbox of two peers: inboxes that hold only their own
/// peer's envelopes have none in common.
pub proof fn lemma_inboxes_are_disjoint(
    first: PeerKey,
    first_inbox: Seq<MessageOnTransit>,
    second: PeerKey,
    second_inbox: Seq<MessageOnTransit>,
)
    requires
        first != second,
        all_addressed_to(first, first_inbox),
        all_addressed_to(second, second_inbox),
    ensures
        forall|i: int, j: int|
            0 <= i < first_inbox.len() && 0 <= j < second_inbox.len() ==> #[trigger] first_inbox[i]
                != #[trigger] second_inbox[j],
{
}

/// The way of an envelope from sender to target: when the target's poll of
/// the network gives the envelope that the sender made, the target keeps it
/// and polls on, and what it then takes out of its inbox is that envelope,
/// with the sender, the sender's position and the sender's bytes in it; the
/// inbox is as it was before.
pub proof fn lemma_envelope_reaches_target(
    sender: PeerKey,
    sender_loc: Option<Location>,
    target: PeerKey,
    data: Vec<u8>,
    inbox: Seq<MessageOnTransit>,
)
    ensures
        ({
            let envelope = envelope_of(sender, sender_loc, target, data);
            let arrived = inbox_after(target, inbox, WireEvent::Envelope(envelope));
            &&& action_after(target, WireEvent::Envelope(envelope)) == PollAction::Again
            &&& taken_from(arrived) == Some(envelope)
            &&& envelope.data == data
            &&& envelope.origin == sender
            &&& envelope.origin_loc == sender_loc
            &&& rest_of(arrived) == inbox
        }),
{
    let envelope = envelope_of(sender, sender_loc, target, data);
    assert(inbox.push(envelope).drop_last() =~= inbox);
}

/// Nothing goes out for a target whose position is unknown, whoever sends and
/// whatever the bytes; for a target with a position, the envelope that goes
/// out is for that target and carries the sender, the sender's own position
/// and the bytes.
pub proof fn lemma_outbound_needs_location(
    sender: PeerKey,
    sender_loc: Option<Location>,
    target: PeerKeyLocation,
    data: Vec<u8>,
)
    ensures
        target.location is None <==> outbound_of(sender, sender_loc, target, data) == Err::<
            MessageOnTransit,
            ConnError,
        >(ConnError::LocationUnknown),
        target.location is Some <==> outbound_of(sender, sender_loc, target, data) == Ok::<
            MessageOnTransit,
            ConnError,
        >(MessageOnTransit { origin: sender, origin_loc: sender_loc, target: target.peer, data }),
{
}

/// A message that was delivered is the next to be received, unchanged, and
/// receiving it leaves the queue as it was before.
pub proof fn lemma_delivered_is_received(queue: Seq<Message>, msg: Message)
    ensures
        taken_from(queue.push(msg)) == Some(msg),
        rest_of(queue.push(msg)) == queue,
{
    assert(queue.push(msg).drop_last() =~= queue);
}

} // verus!
