//! Transactions and the messages that carry them.

use vstd::prelude::*;

verus! {

/// The kind of exchange a transaction belongs to.
#[derive(Clone, Copy, Debug, PartialEq, Eq, Hash, Structural)]
pub enum TransactionTypeId {
    JoinRing,
    Put,
    Get,
    Canceled,
}

/// The handle that correlates every message of one multi-step exchange.
///
/// A transaction is a plain value: its identifier and its kind are fixed when it
/// is made, and two transactions are the same exactly when both agree.
#[derive(Clone, Copy, Debug, PartialEq, Eq, Hash, Structural)]
pub struct Transaction {
    pub id: u64,
    pub ty: TransactionTypeId,
}

impl Transaction {
    pub fn new(id: u64, ty: TransactionTypeId) -> (tx: Transaction)
        ensures
            tx == (Transaction { id, ty }),
    {
        Transaction { id, ty }
    }

    /// The kind this transaction was declared with.
    pub fn tx_type(&self) -> (ty: TransactionTypeId)
        ensures
            ty == self.ty,
    {
        self.ty
    }
}

/// A protocol message: the transaction it belongs to and the payload of the
/// operation, which the transport carries without looking inside.
#[derive(Clone, Debug, PartialEq, Eq)]
pub struct Message {
    pub transaction: Transaction,
    pub payload: Vec<u8>,
}

impl Message {
    pub fn new(transaction: Transaction, payload: Vec<u8>) -> (msg: Message)
        ensures
            msg == (Message { transaction, payload }),
    {
        Message { transaction, payload }
    }
}

} // verus!
