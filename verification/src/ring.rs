//! The local view of the ring.

use vstd::prelude::*;
use crate::conn_manager::PeerKeyLocation;

verus! {

/// A point of the ring's cyclic coordinate space.
#[derive(Clone, Copy, Debug, PartialEq, Eq, Hash, Structural)]
pub struct Location {
    pub position: u64,
}

impl Location {
    pub fn new(position: u64) -> (location: Location)
        ensures
            location == (Location { position }),
    {
        Location { position }
    }
}

/// What one peer knows of the ring: its own position, once it has joined, and
/// the neighbors it has been told of, in the order in which they were added.
#[derive(Clone, Debug, PartialEq, Eq)]
pub struct Ring {
    pub own_location: Option<Location>,
    pub neighbors: Vec<PeerKeyLocation>,
}

impl Ring {
    /// A ring view without neighbors.
    pub fn new(own_location: Option<Location>) -> (ring: Ring)
        ensures
            ring.own_location == own_location,
            ring.neighbors@ == Seq::<PeerKeyLocation>::empty(),
    {
        Ring { own_location, neighbors: Vec::new() }
    }

    pub fn own_location(&self) -> (location: Option<Location>)
        ensures
            location == self.own_location,
    {
        self.own_location
    }

    /// Records `peer` as a neighbor, after those already known.
    pub fn add_neighbor(&mut self, peer: PeerKeyLocation)
        ensures
            final(self).own_location == old(self).own_location,
            final(self).neighbors@ == old(self).neighbors@.push(peer),
    {
        self.neighbors.push(peer);
    }
}

} // verus!
