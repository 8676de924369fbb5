use vstd::prelude::*;
use crate::labels::{MetricsTxStatus, MetricsTxType};
use crate::metrics::{Metrics, pair_key, tracker_counts};
use crate::rate::RateCounter;
use crate::store::{Transaction, TransactionStore, insert_if_absent};

verus! {

/// Relies on rand::random::<bool>: a fair coin from the thread-local
/// generator. Nothing is known of the outcome.
#[verifier::external_body]
fn coin() -> (r: bool) {
    rand::random::<bool>()
}

/// The labels that two coin outcomes stand for.
pub open spec fn classification(succeeded: bool, normal: bool) -> (MetricsTxStatus, MetricsTxType) {
    (
        if succeeded {
            MetricsTxStatus::Succeeded
        } else {
            MetricsTxStatus::Failed
        },
        if normal {
            MetricsTxType::Normal
        } else {
            MetricsTxType::Blobs
        },
    )
}

/// Labels a transaction from two independent outcomes.
pub fn classify(succeeded: bool, normal: bool) -> (r: (MetricsTxStatus, MetricsTxType))
    ensures
        r == classification(succeeded, normal),
{
    let status = if succeeded {
        MetricsTxStatus::Succeeded
    } else {
        MetricsTxStatus::Failed
    };
    let tx_type = if normal {
        MetricsTxType::Normal
    } else {
        MetricsTxType::Blobs
    };
    (status, tx_type)
}

/// Labels a transaction at random, status and type each with even odds. Any
/// pair may come out.
pub fn draw_classification() -> (r: (MetricsTxStatus, MetricsTxType))
    ensures
        exists|succeeded: bool, normal: bool| r == classification(succeeded, normal),
{
    let succeeded = coin();
    let normal = coin();
    let r = classify(succeeded, normal);
    assert(r == classification(succeeded, normal));
    r
}

/// Accepts one transaction: counts it under its labels and in the total,
/// counts it in the current second, and files it unless its id is taken.
/// Returns whether it was filed.
pub fn accept_transaction(
    store: &mut TransactionStore,
    rate: &mut RateCounter,
    metrics: &mut Metrics,
    tx: Transaction,
    status: MetricsTxStatus,
    tx_type: MetricsTxType,
) -> (inserted: bool)
    requires
        old(store).wf(),
        old(metrics).wf(),
        old(metrics).total() < u64::MAX,
        old(rate)@ < u64::MAX,
    ensures
        final(store).wf(),
        final(store)@ == insert_if_absent(old(store)@, tx),
        inserted == !old(store)@.contains_key(tx.id),
        final(rate)@ == old(rate)@ + 1,
        final(metrics).wf(),
        final(metrics).total() == old(metrics).total() + 1,
        final(metrics).recorded@ == old(metrics).recorded@.push((status, tx_type)),
        tracker_counts(final(metrics).transactions_tracker) == tracker_counts(
            old(metrics).transactions_tracker,
        ).insert(pair_key(status, tx_type), (old(metrics).count(status, tx_type) + 1) as u64),
        forall|s: MetricsTxStatus, t: MetricsTxType|
            #[trigger] final(metrics).count(s, t) == if s == status && t == tx_type {
                old(metrics).count(s, t) + 1
            } else {
                old(metrics).count(s, t) as int
            },
{
    metrics.inc_tx();
    metrics.inc_tx_with_status_and_type(status, tx_type);
    rate.increment();
    store.insert(tx)
}

} // verus!
