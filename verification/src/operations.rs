//! The progress a peer keeps for each exchange it takes part in.

use vstd::prelude::*;
use crate::conn_manager::PeerKeyLocation;
use crate::message::TransactionTypeId;
use crate::ring::Location;

verus! {

/// Progress of a request to be admitted to the ring.
#[derive(Clone, Debug, PartialEq, Eq)]
pub struct JoinRingOp {
    /// Rounds of negotiation gone through so far.
    pub round: u32,
    /// The open peer that was asked for admission.
    pub gateway: PeerKeyLocation,
    /// When the request is given up.
    pub deadline: u64,
    /// The position that was granted, once it has been.
    pub assigned: Option<Location>,
}

/// Progress of storing a value near a position on the ring.
#[derive(Clone, Debug, PartialEq, Eq)]
pub struct PutOp {
    pub round: u32,
    /// The position the value belongs to.
    pub target: Location,
    /// Peers that were sent the value and have not answered yet.
    pub pending: u32,
    pub deadline: u64,
}

/// Progress of looking a value up near a position on the ring.
#[derive(Clone, Debug, PartialEq, Eq)]
pub struct GetOp {
    pub round: u32,
    /// The position the value is looked for at.
    pub target: Location,
    /// Peers that may still be asked before the lookup is given up.
    pub hops_left: u32,
    pub deadline: u64,
    /// The value, once a peer has returned it.
    pub found: Option<Vec<u8>>,
}

/// The state of one exchange in flight, by kind.
#[derive(Clone, Debug, PartialEq, Eq)]
pub enum Operation {
    JoinRing(JoinRingOp),
    Put(PutOp),
    Get(GetOp),
}

impl Operation {
    /// The kind of transaction this state belongs to. It is never `Canceled`.
    pub open spec fn kind(&self) -> TransactionTypeId {
        match self {
            Operation::JoinRing(_) => TransactionTypeId::JoinRing,
            Operation::Put(_) => TransactionTypeId::Put,
            Operation::Get(_) => TransactionTypeId::Get,
        }
    }

    pub fn tx_type(&self) -> (ty: TransactionTypeId)
        ensures
            ty == self.kind(),
    {
        match self {
            Operation::JoinRing(_) => TransactionTypeId::JoinRing,
            Operation::Put(_) => TransactionTypeId::Put,
            Operation::Get(_) => TransactionTypeId::Get,
        }
    }
}

} // verus!
