//! Peers, their position on the ring, and what a transport says of itself.

use vstd::prelude::*;
use crate::ring::Location;

pub mod in_memory;
pub mod wire;

verus! {

/// The stable identity of a peer.
#[derive(Clone, Copy, Debug, PartialEq, Eq, Hash, Structural)]
pub struct PeerKey {
    pub id: u64,
}

impl PeerKey {
    pub fn new(id: u64) -> (peer: PeerKey)
        ensures
            peer == (PeerKey { id }),
    {
        PeerKey { id }
    }
}

/// A peer together with its position on the ring, which is unknown (`None`)
/// until the peer has joined.
#[derive(Clone, Copy, Debug, PartialEq, Eq, Hash)]
pub struct PeerKeyLocation {
    pub peer: PeerKey,
    pub location: Option<Location>,
}

/// Why a message could not be handed to the transport.
#[derive(Clone, Copy, Debug, PartialEq, Eq, Structural)]
pub enum ConnError {
    /// The target has no position on the ring yet.
    LocationUnknown,
    /// The channel to the network is closed.
    TransportClosed,
    /// The message could not be encoded or decoded.
    SerializationFailure,
}

/// What a peer's endpoint says of itself.
pub trait Transport {
    /// Whether the endpoint takes connections that it did not ask for.
    spec fn open(&self) -> bool;

    /// Where the endpoint stands on the ring, once it has joined.
    spec fn position(&self) -> Option<Location>;

    fn is_open(&self) -> (open: bool)
        ensures
            open == self.open(),
    ;

    fn location(&self) -> (location: Option<Location>)
        ensures
            location == self.position(),
    ;
}

} // verus!
