//! The shared channel that stands for the network, and the envelopes on it.

use vstd::prelude::*;
use crate::conn_manager::PeerKey;
use crate::ring::Location;

verus! {

/// A message on its way through the network: who sent it, for whom it is, and
/// the encoded message itself, which the transport does not look into.
#[derive(Clone, Debug, PartialEq, Eq)]
pub struct MessageOnTransit {
    /// The peer that sent it.
    pub origin: PeerKey,
    /// Where the sender stands on the ring, if it has joined.
    pub origin_loc: Option<Location>,
    /// The peer it is for.
    pub target: PeerKey,
    /// The encoded message.
    pub data: Vec<u8>,
}

/// What an attempt to put an envelope on the network came to.
#[derive(Clone, Copy, Debug, PartialEq, Eq, Structural)]
pub enum SendOutcome {
    Sent,
    Full,
    Disconnected,
}

/// What an attempt to take an envelope off the network came to.
#[derive(Clone, Debug, PartialEq, Eq)]
pub enum WireEvent {
    /// An envelope was waiting, whoever it is for.
    Envelope(MessageOnTransit),
    /// Nothing is waiting.
    Empty,
    /// Nothing is waiting and no sender is left.
    Disconnected,
}

#[verifier::external_type_specification]
#[verifier::external_body]
#[verifier::reject_recursive_types(T)]
pub struct ExSender<T>(crossbeam::channel::Sender<T>);

#[verifier::external_type_specification]
#[verifier::external_body]
#[verifier::reject_recursive_types(T)]
pub struct ExReceiver<T>(crossbeam::channel::Receiver<T>);

/// What `crossbeam::channel::Sender::capacity` returns for `tx`: the bound the
/// channel was made with, `None` for a channel without one.
pub uninterp spec fn wire_capacity(tx: crossbeam::channel::Sender<MessageOnTransit>) -> Option<nat>;

/// Calls `crossbeam::channel::unbounded`. The channel it makes has no capacity
/// bound.
#[verifier::external_body]
pub(crate) fn open_wire() -> (ends: (
    crossbeam::channel::Sender<MessageOnTransit>,
    crossbeam::channel::Receiver<MessageOnTransit>,
))
    ensures
        wire_capacity(ends.0) is None,
{
    crossbeam::channel::unbounded()
}

/// Calls `clone` on a `crossbeam::channel::Sender`. The new handle sends into
/// the same channel, so its capacity is that of `tx`.
#[verifier::external_body]
pub(crate) fn share_sender(tx: &crossbeam::channel::Sender<MessageOnTransit>) -> (shared:
    crossbeam::channel::Sender<MessageOnTransit>)
    ensures
        wire_capacity(shared) == wire_capacity(*tx),
{
    tx.clone()
}

/// Calls `clone` on a `crossbeam::channel::Receiver`. Nothing is claimed of the
/// new handle.
#[verifier::external_body]
pub(crate) fn share_receiver(rx: &crossbeam::channel::Receiver<MessageOnTransit>) -> (shared:
    crossbeam::channel::Receiver<MessageOnTransit>) {
    rx.clone()
}

/// Calls `crossbeam::channel::Sender::try_send`. Whether the envelope was
/// taken depends on the channel; the one claim is that only a channel with a
/// capacity bound reports that it is full.
#[verifier::external_body]
pub(crate) fn wire_try_send(
    tx: &crossbeam::channel::Sender<MessageOnTransit>,
    envelope: MessageOnTransit,
) -> (outcome: SendOutcome)
    ensures
        outcome is Full ==> wire_capacity(*tx) is Some,
{
    match tx.try_send(envelope) {
        Ok(()) => SendOutcome::Sent,
        Err(crossbeam::channel::TrySendError::Full(_)) => SendOutcome::Full,
        Err(crossbeam::channel::TrySendError::Disconnected(_)) => SendOutcome::Disconnected,
    }
}

/// Calls `crossbeam::channel::Receiver::try_recv`. What comes back depends on
/// what other holders of the channel have done, so nothing is claimed of it.
#[verifier::external_body]
pub(crate) fn wire_try_recv(rx: &crossbeam::channel::Receiver<MessageOnTransit>) -> (event:
    WireEvent) {
    match rx.try_recv() {
        Ok(envelope) => WireEvent::Envelope(envelope),
        Err(crossbeam::channel::TryRecvError::Empty) => WireEvent::Empty,
        Err(crossbeam::channel::TryRecvError::Disconnected) => WireEvent::Disconnected,
    }
}

} // verus!
