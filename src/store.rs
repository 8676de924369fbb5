use vstd::prelude::*;
use std::collections::HashMap;

verus! {

broadcast use vstd::std_specs::hash::group_hash_axioms;

/// One accepted transaction. The amount is kept as the bit pattern of the
/// IEEE-754 double that the client sent, so that it round-trips exactly.
#[derive(Debug)]
pub struct Transaction {
    pub operation: String,
    pub id: u64,
    pub value_bits: u64,
}

/// Transactions by id, with insert-if-absent semantics.
pub struct TransactionStore {
    transactions: HashMap<u64, Transaction>,
}

impl View for TransactionStore {
    type V = Map<u64, Transaction>;

    closed spec fn view(&self) -> Map<u64, Transaction> {
        self.transactions@
    }
}

/// Every record is filed under its own id.
pub open spec fn keyed_by_id(m: Map<u64, Transaction>) -> bool {
    forall|k: u64| #[trigger] m.contains_key(k) ==> m[k].id == k
}

/// `m` after filing `tx` under its id, unless that id was taken.
pub open spec fn insert_if_absent(m: Map<u64, Transaction>, tx: Transaction) -> Map<u64, Transaction> {
    if m.contains_key(tx.id) {
        m
    } else {
        m.insert(tx.id, tx)
    }
}

/// `m` after filing each of `txs` in order.
pub open spec fn insert_all(m: Map<u64, Transaction>, txs: Seq<Transaction>) -> Map<u64, Transaction>
    decreases txs.len(),
{
    if txs.len() == 0 {
        m
    } else {
        insert_if_absent(insert_all(m, txs.drop_last()), txs.last())
    }
}

/// Whatever records are filed, and in whatever order, each stays under its own id.
pub proof fn lemma_insert_all_keyed_by_id(m: Map<u64, Transaction>, txs: Seq<Transaction>)
    requires
        keyed_by_id(m),
    ensures
        keyed_by_id(insert_all(m, txs)),
    decreases txs.len(),
{
    if txs.len() > 0 {
        lemma_insert_all_keyed_by_id(m, txs.drop_last());
    }
}

/// Filing two records with one id keeps the first: the second is dropped.
pub proof fn lemma_first_insert_wins(m: Map<u64, Transaction>, first: Transaction, second: Transaction)
    requires
        keyed_by_id(m),
        !m.contains_key(first.id),
        second.id == first.id,
    ensures
        insert_if_absent(insert_if_absent(m, first), second)[first.id] == first,
        insert_if_absent(insert_if_absent(m, first), second) == insert_if_absent(m, first),
{
}

impl TransactionStore {
    pub open spec fn wf(&self) -> bool {
        keyed_by_id(self@)
    }

    pub fn new() -> (r: Self)
        ensures
            r.wf(),
            r@ == Map::<u64, Transaction>::empty(),
    {
        TransactionStore { transactions: HashMap::new() }
    }

    /// Files `tx` under its id unless that id is taken; a duplicate is dropped.
    /// Returns whether the record was stored.
    pub fn insert(&mut self, tx: Transaction) -> (inserted: bool)
        requires
            old(self).wf(),
        ensures
            final(self).wf(),
            inserted == !old(self)@.contains_key(tx.id),
            final(self)@ == insert_if_absent(old(self)@, tx),
    {
        if self.transactions.contains_key(&tx.id) {
            false
        } else {
            let id = tx.id;
            self.transactions.insert(id, tx);
            true
        }
    }

    /// The record filed under `id`, if any.
    pub fn get(&self, id: u64) -> (r: Option<&Transaction>)
        ensures
            match r {
                Some(t) => self@.contains_key(id) && *t == self@[id],
                None => !self@.contains_key(id),
            },
    {
        self.transactions.get(&id)
    }

    /// Number of stored transactions.
    pub fn len(&self) -> (r: usize)
        ensures
            r == self@.len(),
    {
        self.transactions.len()
    }
}

} // verus!
