//! The registry of operations in flight on the local peer.

use std::collections::HashMap;
use vstd::prelude::*;
use crate::message::{Transaction, TransactionTypeId};
use crate::operations::{GetOp, JoinRingOp, Operation, PutOp};
use crate::ring::Ring;

verus! {

broadcast use vstd::std_specs::hash::group_hash_axioms;

/// Why the registry refused a call.
#[derive(Clone, Debug, PartialEq, Eq)]
pub enum OpExecutionError {
    /// An operation of the first kind was offered under a transaction of the
    /// second kind.
    IncorrectTxType(TransactionTypeId, TransactionTypeId),
    /// The state kept for the transaction could not be brought up to date.
    TxUpdateFailure(Transaction),
}

/// What `push` answers: success exactly when the transaction's kind is that of
/// the operation.
pub open spec fn push_result(id: Transaction, op: Operation) -> Result<(), OpExecutionError> {
    if id.ty == op.kind() {
        Ok(())
    } else {
        Err(OpExecutionError::IncorrectTxType(op.kind(), id.ty))
    }
}

/// The registry after `push`: on success `id` maps to `op`, whatever it mapped
/// to before; on failure nothing has changed.
pub open spec fn after_push(
    held: Map<Transaction, Operation>,
    id: Transaction,
    op: Operation,
) -> Map<Transaction, Operation> {
    if id.ty == op.kind() {
        held.insert(id, op)
    } else {
        held
    }
}

/// What `pop` answers: the operation held under `id`, if there is one.
pub open spec fn pop_result(held: Map<Transaction, Operation>, id: Transaction) -> Option<
    Operation,
> {
    if held.contains_key(id) {
        Some(held[id])
    } else {
        None
    }
}

/// The registry after `pop`: nothing is held under `id` any more.
pub open spec fn after_pop(held: Map<Transaction, Operation>, id: Transaction) -> Map<
    Transaction,
    Operation,
> {
    held.remove(id)
}

/// Every operation is held under a transaction of its own kind.
pub open spec fn kinds_agree(held: Map<Transaction, Operation>) -> bool {
    forall|id: Transaction| #[trigger] held.contains_key(id) ==> held[id].kind() == id.ty
}

/// The operations in flight, each owned by the registry until it is popped,
/// and the view of the ring that they consult and update.
///
/// Each kind of operation has a table of its own, keyed by the transaction's
/// identifier. Seen from outside the three tables are one map from transaction
/// to operation.
pub struct OpStateStorage {
    join_ring: HashMap<u64, JoinRingOp>,
    put: HashMap<u64, PutOp>,
    get: HashMap<u64, GetOp>,
    pub ring: Ring,
}

impl View for OpStateStorage {
    type V = Map<Transaction, Operation>;

    closed spec fn view(&self) -> Map<Transaction, Operation> {
        Map::new(
            |id: Transaction|
                match id.ty {
                    TransactionTypeId::JoinRing => self.join_ring@.contains_key(id.id),
                    TransactionTypeId::Put => self.put@.contains_key(id.id),
                    TransactionTypeId::Get => self.get@.contains_key(id.id),
                    TransactionTypeId::Canceled => false,
                },
            |id: Transaction|
                match id.ty {
                    TransactionTypeId::JoinRing => Operation::JoinRing(self.join_ring@[id.id]),
                    TransactionTypeId::Put => Operation::Put(self.put@[id.id]),
                    _ => Operation::Get(self.get@[id.id]),
                },
        )
    }
}

impl OpStateStorage {
    /// The view of the ring that the registry carries.
    pub closed spec fn ring_view(&self) -> Ring {
        self.ring
    }

    /// An empty registry around `ring`.
    pub fn new(ring: Ring) -> (storage: OpStateStorage)
        ensures
            storage@ == Map::<Transaction, Operation>::empty(),
            storage.ring_view() == ring,
    {
        let storage = OpStateStorage {
            join_ring: HashMap::new(),
            put: HashMap::new(),
            get: HashMap::new(),
            ring,
        };
        assert(storage@ =~= Map::<Transaction, Operation>::empty());
        storage
    }

    /// Stores `op` under `id`, in place of what was stored there before.
    ///
    /// The call is refused, and changes nothing, when `id` is of another kind
    /// than `op`; that is so for every operation when `id` is `Canceled`.
    pub fn push(&mut self, id: Transaction, op: Operation) -> (result: Result<
        (),
        OpExecutionError,
    >)
        ensures
            result == push_result(id, op),
            final(self)@ == after_push(old(self)@, id, op),
            final(self).ring_view() == old(self).ring_view(),
    {
        let expected = op.tx_type();
        let actual = id.tx_type();
        if expected != actual {
            return Err(OpExecutionError::IncorrectTxType(expected, actual));
        }
        match op {
            Operation::JoinRing(state) => {
                self.join_ring.insert(id.id, state);
            },
            Operation::Put(state) => {
                self.put.insert(id.id, state);
            },
            Operation::Get(state) => {
                self.get.insert(id.id, state);
            },
        }
        assert(self@ =~= old(self)@.insert(id, op));
        Ok(())
    }

    /// Takes the operation stored under `id` out of the registry, if there is
    /// one. A `Canceled` transaction is no key of the registry.
    pub fn pop(&mut self, id: &Transaction) -> (result: Option<Operation>)
        requires
            id.ty != TransactionTypeId::Canceled,
        ensures
            result == pop_result(old(self)@, *id),
            final(self)@ == after_pop(old(self)@, *id),
            final(self).ring_view() == old(self).ring_view(),
    {
        let result = match id.tx_type() {
            TransactionTypeId::JoinRing => match self.join_ring.remove(&id.id) {
                Some(state) => Some(Operation::JoinRing(state)),
                None => None,
            },
            TransactionTypeId::Put => match self.put.remove(&id.id) {
                Some(state) => Some(Operation::Put(state)),
                None => None,
            },
            _ => match self.get.remove(&id.id) {
                Some(state) => Some(Operation::Get(state)),
                None => None,
            },
        };
        assert(self@ =~= old(self)@.remove(*id));
        result
    }

    /// The view of the ring, to consult.
    pub fn ring(&self) -> (ring: &Ring)
        ensures
            *ring == self.ring_view(),
    {
        &self.ring
    }

    /// The view of the ring, to update. What is written through the reference
    /// is the registry's view of the ring from then on; the operations in
    /// flight are not touched.
    pub fn ring_mut(&mut self) -> (ring: &mut Ring)
        ensures
            *ring == old(self).ring_view(),
            final(self).ring_view() == *final(ring),
            final(self)@ == old(self)@,
    {
        &mut self.ring
    }

    /// Whatever calls the registry has seen, each operation it holds is of the
    /// kind of the transaction that it is held under.
    pub proof fn lemma_kinds_agree(&self)
        ensures
            kinds_agree(self@),
    {
    }
}

/// One call of the registry, as it stands in a history of calls.
pub enum RegistryCall {
    Push(Transaction, Operation),
    Pop(Transaction),
}

/// What a registry that was made empty holds after `calls`, made in order.
pub open spec fn replay(calls: Seq<RegistryCall>) -> Map<Transaction, Operation>
    decreases calls.len(),
{
    if calls.len() == 0 {
        Map::empty()
    } else {
        let before = replay(calls.drop_last());
        match calls.last() {
            RegistryCall::Push(id, op) => after_push(before, id, op),
            RegistryCall::Pop(id) => after_pop(before, id),
        }
    }
}

/// Transactions do not disturb each other: after `first` was pushed under
/// `t1` and `second` under another transaction `t2`, each under a transaction
/// of its own kind, popping `t1` gives back `first`, and popping `t2` after
/// that gives back `second`, whatever the registry held before.
pub proof fn lemma_pushes_are_isolated(
    held: Map<Transaction, Operation>,
    t1: Transaction,
    first: Operation,
    t2: Transaction,
    second: Operation,
)
    requires
        t1 != t2,
        t1.ty == first.kind(),
        t2.ty == second.kind(),
    ensures
        ({
            let pushed = after_push(after_push(held, t1, first), t2, second);
            &&& push_result(t1, first) is Ok
            &&& push_result(t2, second) is Ok
            &&& pop_result(pushed, t1) == Some(first)
            &&& pop_result(after_pop(pushed, t1), t2) == Some(second)
        }),
{
}

/// A push is refused exactly when the transaction is of another kind than the
/// operation, and a refused push changes nothing.
pub proof fn lemma_push_checks_kind(
    held: Map<Transaction, Operation>,
    id: Transaction,
    op: Operation,
)
    ensures
        push_result(id, op) is Err <==> id.ty != op.kind(),
        push_result(id, op) is Err ==> push_result(id, op) == Err::<(), OpExecutionError>(
            OpExecutionError::IncorrectTxType(op.kind(), id.ty),
        ) && after_push(held, id, op) == held,
        id.ty == TransactionTypeId::Canceled ==> push_result(id, op) is Err,
{
}

/// A transaction that was never pushed is absent: whatever calls a registry
/// has seen since it was made, popping a transaction that none of them pushed
/// gives nothing.
pub proof fn lemma_never_pushed_is_absent(calls: Seq<RegistryCall>, id: Transaction)
    requires
        forall|i: int|
            0 <= i < calls.len() ==> !(#[trigger] calls[i] matches RegistryCall::Push(pushed, _)
                && pushed == id),
    ensures
        !replay(calls).contains_key(id),
        pop_result(replay(calls), id) is None,
    decreases calls.len(),
{
    if calls.len() > 0 {
        let earlier = calls.drop_last();
        assert forall|i: int| 0 <= i < earlier.len() implies !(#[trigger] earlier[i] matches RegistryCall::Push(
            pushed,
            _,
        ) && pushed == id) by {
            assert(earlier[i] == calls[i]);
        }
        lemma_never_pushed_is_absent(earlier, id);
        assert(calls.last() == calls[calls.len() - 1]);
    }
}

/// An operation is handed out once: of two pops of one transaction the first
/// gets what was held, the second nothing.
pub proof fn lemma_pop_hands_out_once(held: Map<Transaction, Operation>, id: Transaction)
    ensures
        held.contains_key(id) ==> pop_result(held, id) == Some(held[id]),
        pop_result(after_pop(held, id), id) is None,
{
}

/// Pushing and popping keep every operation under a transaction of its kind.
pub proof fn lemma_kinds_stay_agreed(
    held: Map<Transaction, Operation>,
    id: Transaction,
    op: Operation,
)
    requires
        kinds_agree(held),
    ensures
        kinds_agree(after_push(held, id, op)),
        kinds_agree(after_pop(held, id)),
{
}

} // verus!
