use vstd::prelude::*;
use prometheus::{Encoder, IntCounter, IntCounterVec, Opts, Registry, TextEncoder};
use crate::labels::{MetricsTxStatus, MetricsTxType, status_label, type_label, lemma_labels_injective};

verus! {

/// A prometheus integer counter. Its atomic cell type is generic over a
/// prometheus trait, so the counter is held here and known only through
/// `counter_value` and `counter_desc`.
#[verifier::external_body]
pub struct Counter {
    inner: IntCounter,
}

/// A prometheus counter family. Its builder type is private to prometheus, so
/// the family is held here and known only through `tracker_counts` and
/// `family_desc`.
#[verifier::external_body]
pub struct CounterFamily {
    inner: IntCounterVec,
}

#[verifier::external_type_specification]
#[verifier::external_body]
pub struct ExPrometheusError(prometheus::Error);

/// Current value of a counter.
pub uninterp spec fn counter_value(c: Counter) -> u64;

/// Name and help text a counter was made with.
pub uninterp spec fn counter_desc(c: Counter) -> (Seq<char>, Seq<char>);

/// Children of a counter family: label values to value. A pair that was
/// never used has no entry.
pub uninterp spec fn tracker_counts(v: CounterFamily) -> Map<(Seq<char>, Seq<char>), u64>;

/// Name, help text and label names a counter family was made with.
pub uninterp spec fn family_desc(v: CounterFamily) -> (Seq<char>, Seq<char>, Seq<Seq<char>>);

/// Text-format exposition of a registry holding one counter (its name and
/// help, and its value) and one counter family (its name, help and label
/// names, and its children).
pub uninterp spec fn exposition(
    total_desc: (Seq<char>, Seq<char>),
    total: u64,
    family: (Seq<char>, Seq<char>, Seq<Seq<char>>),
    children: Map<(Seq<char>, Seq<char>), u64>,
) -> Seq<char>;

/// A counter family before any label pair was used.
pub open spec fn no_children() -> Map<(Seq<char>, Seq<char>), u64> {
    Map::empty()
}

/// Successor of a counter value; the underlying atomic add wraps.
pub open spec fn wrapping_inc(v: u64) -> u64 {
    if v == u64::MAX {
        0
    } else {
        (v + 1) as u64
    }
}

pub open spec fn ident_char(c: char, colon: bool) -> bool {
    ('a' <= c && c <= 'z') || ('A' <= c && c <= 'Z') || c == '_' || (colon && c == ':')
}

/// `[a-zA-Z_:][a-zA-Z0-9_:]*` (with `colon`), or the same without `:`.
pub open spec fn valid_ident(s: Seq<char>, colon: bool) -> bool {
    &&& s.len() > 0
    &&& ident_char(s[0], colon)
    &&& forall|i: int| 1 <= i < s.len() ==> ident_char(#[trigger] s[i], colon) || ('0' <= s[i] && s[i] <= '9')
}

/// Relies on prometheus::IntCounter::new: it fails only on an empty help text
/// or an invalid metric name, and starts at zero.
#[verifier::external_body]
fn new_int_counter(name: &str, help: &str) -> (r: Result<Counter, prometheus::Error>)
    requires
        valid_ident(name@, true),
        help@.len() > 0,
    ensures
        r is Ok,
        r is Ok ==> counter_value(r->Ok_0) == 0,
        r is Ok ==> counter_desc(r->Ok_0) == (name@, help@),
{
    let inner = IntCounter::new(name, help)?;
    Ok(Counter { inner })
}

/// Relies on prometheus::IntCounterVec::new with Opts::new: it fails only on an
/// empty help text, an invalid metric or label name, or a repeated label name;
/// the family starts with no children.
#[verifier::external_body]
fn new_int_counter_vec(name: &str, help: &str, first: &str, second: &str) -> (r: Result<CounterFamily, prometheus::Error>)
    requires
        valid_ident(name@, true),
        help@.len() > 0,
        valid_ident(first@, false),
        valid_ident(second@, false),
        first@ != second@,
    ensures
        r is Ok,
        r is Ok ==> tracker_counts(r->Ok_0) == no_children(),
        r is Ok ==> family_desc(r->Ok_0) == (name@, help@, seq![first@, second@]),
{
    let inner = IntCounterVec::new(Opts::new(name, help), &[first, second])?;
    Ok(CounterFamily { inner })
}

/// Relies on prometheus::IntCounter::inc: a wrapping atomic add of one.
#[verifier::external_body]
fn counter_inc(c: &mut Counter)
    ensures
        counter_value(*final(c)) == wrapping_inc(counter_value(*old(c))),
        counter_desc(*final(c)) == counter_desc(*old(c)),
{
    c.inner.inc()
}

/// Relies on prometheus::IntCounter::get: the current value.
#[verifier::external_body]
fn counter_get(c: &Counter) -> (r: u64)
    ensures
        r == counter_value(*c),
{
    c.inner.get()
}

/// Relies on prometheus::IntCounterVec::get_metric_with_label_values followed by
/// IntCounter::inc on the child: the child for these values is created at zero
/// on first use, then raised by one. The lookup fails only when the family was
/// not made with two label names. Children are told apart by a hash of the
/// joined values, so this is stated for this library's label values only.
#[verifier::external_body]
fn tracker_inc(v: &mut CounterFamily, first: &str, second: &str) -> (r: Result<(), prometheus::Error>)
    requires
        exists|s: MetricsTxStatus, t: MetricsTxType|
            first@ == status_label(s) && second@ == type_label(t),
    ensures
        r is Ok == (family_desc(*old(v)).2.len() == 2),
        family_desc(*final(v)) == family_desc(*old(v)),
        r is Ok ==> tracker_counts(*final(v)) == tracker_counts(*old(v)).insert(
            (first@, second@),
            wrapping_inc(
                if tracker_counts(*old(v)).contains_key((first@, second@)) {
                    tracker_counts(*old(v))[(first@, second@)]
                } else {
                    0
                },
            ),
        ),
        r is Err ==> tracker_counts(*final(v)) == tracker_counts(*old(v)),
{
    let child = v.inner.get_metric_with_label_values(&[first, second])?;
    child.inc();
    Ok(())
}

/// Relies on prometheus::Registry::register and gather, and TextEncoder::encode.
/// A fresh registry refuses a collector only when a hash of its name matches
/// one already registered; this library's two names hash apart, so this is
/// stated for those names only. gather drops empty families and sorts the rest
/// by name and children by labels, and encoding into a buffer gives UTF-8 text
/// fixed by the collectors' state.
#[verifier::external_body]
fn encode_text(total: &Counter, tracker: &CounterFamily) -> (r: Option<String>)
    requires
        counter_desc(*total).0 == total_name(),
        family_desc(*tracker).0 == tracker_name(),
    ensures
        r is Some,
        r is Some ==> r->Some_0@ == exposition(
            counter_desc(*total),
            counter_value(*total),
            family_desc(*tracker),
            tracker_counts(*tracker),
        ),
{
    let registry = Registry::new();
    registry.register(Box::new(total.inner.clone())).ok()?;
    registry.register(Box::new(tracker.inner.clone())).ok()?;
    let mut buffer = Vec::new();
    TextEncoder::new().encode(&registry.gather(), &mut buffer).ok()?;
    String::from_utf8(buffer).ok()
}

/// A transaction recorded under its label pair.
pub type Event = (MetricsTxStatus, MetricsTxType);

/// How many of `events` carry the pair (`s`, `t`).
pub open spec fn tally(events: Seq<Event>, s: MetricsTxStatus, t: MetricsTxType) -> nat
    decreases events.len(),
{
    if events.len() == 0 {
        0
    } else {
        tally(events.drop_last(), s, t) + if events.last() == (s, t) {
            1nat
        } else {
            0nat
        }
    }
}

/// `k` copies of one event.
pub open spec fn repeated(e: Event, k: nat) -> Seq<Event> {
    Seq::new(k, |i: int| e)
}

/// The key under which a pair's child is kept.
pub open spec fn pair_key(s: MetricsTxStatus, t: MetricsTxType) -> (Seq<char>, Seq<char>) {
    (status_label(s), type_label(t))
}

/// One of the four label pairs of this library.
pub open spec fn is_pair_key(k: (Seq<char>, Seq<char>)) -> bool {
    &&& (k.0 == status_label(MetricsTxStatus::Failed) || k.0 == status_label(MetricsTxStatus::Succeeded))
    &&& (k.1 == type_label(MetricsTxType::Normal) || k.1 == type_label(MetricsTxType::Blobs))
}

pub open spec fn total_name() -> Seq<char> {
    "transactions_total"@
}

pub open spec fn total_help() -> Seq<char> {
    "Keeps track of all transactions"@
}

pub open spec fn tracker_name() -> Seq<char> {
    "transactions_tracker"@
}

pub open spec fn tracker_help() -> Seq<char> {
    "Keeps track of all transactions depending on status and tx_type"@
}

pub open spec fn tracker_labels() -> Seq<Seq<char>> {
    seq!["status"@, "tx_type"@]
}

/// Process-wide transaction counters: a total, and one count per
/// (status, type) label pair.
pub struct Metrics {
    pub transactions_tracker: CounterFamily,
    pub transactions_total: Counter,
    /// The label pairs recorded so far, oldest first.
    pub recorded: Ghost<Seq<Event>>,
}

impl Metrics {
    /// The counters carry this library's names, the family holds only the four
    /// label pairs, each child counts the recorded events of its pair, and no
    /// more events were recorded under labels than in the total.
    pub open spec fn wf(&self) -> bool {
        &&& counter_desc(self.transactions_total) == (total_name(), total_help())
        &&& family_desc(self.transactions_tracker) == (tracker_name(), tracker_help(), tracker_labels())
        &&& forall|k: (Seq<char>, Seq<char>)| #[trigger]
            tracker_counts(self.transactions_tracker).contains_key(k) ==> is_pair_key(k)
                && tracker_counts(self.transactions_tracker)[k] > 0
        &&& forall|s: MetricsTxStatus, t: MetricsTxType| #[trigger]
            self.count(s, t) == tally(self.recorded@, s, t)
        &&& self.recorded@.len() <= self.total()
    }

    /// Accepted transactions so far.
    pub open spec fn total(&self) -> u64 {
        counter_value(self.transactions_total)
    }

    /// Transactions recorded under this label pair so far.
    pub open spec fn count(&self, s: MetricsTxStatus, t: MetricsTxType) -> u64 {
        let m = tracker_counts(self.transactions_tracker);
        if m.contains_key(pair_key(s, t)) {
            m[pair_key(s, t)]
        } else {
            0
        }
    }

    /// Transactions recorded under any label pair so far.
    pub open spec fn labeled_total(&self) -> nat {
        self.recorded@.len()
    }

    /// The exported text of the current counter state.
    pub open spec fn rendered(&self) -> Seq<char> {
        exposition(
            counter_desc(self.transactions_total),
            counter_value(self.transactions_total),
            family_desc(self.transactions_tracker),
            tracker_counts(self.transactions_tracker),
        )
    }

    pub fn new() -> (r: Self)
        ensures
            r.wf(),
            r.total() == 0,
            r.recorded@ == Seq::<Event>::empty(),
            tracker_counts(r.transactions_tracker) == no_children(),
            forall|s: MetricsTxStatus, t: MetricsTxType| #[trigger] r.count(s, t) == 0,
    {
        proof {
            reveal_strlit("transactions_tracker");
            reveal_strlit("Keeps track of all transactions depending on status and tx_type");
            reveal_strlit("status");
            reveal_strlit("tx_type");
            reveal_strlit("transactions_total");
            reveal_strlit("Keeps track of all transactions");
        }
        let transactions_tracker = match new_int_counter_vec(
            "transactions_tracker",
            "Keeps track of all transactions depending on status and tx_type",
            "status",
            "tx_type",
        ) {
            Ok(v) => v,
            Err(_) => vstd::pervasive::unreached(),
        };
        let transactions_total = match new_int_counter(
            "transactions_total",
            "Keeps track of all transactions",
        ) {
            Ok(c) => c,
            Err(_) => vstd::pervasive::unreached(),
        };
        Metrics { transactions_tracker, transactions_total, recorded: Ghost(Seq::empty()) }
    }

    /// Whether the total can count one more transaction.
    pub fn has_room(&self) -> (r: bool)
        ensures
            r == (self.total() < u64::MAX),
    {
        counter_get(&self.transactions_total) < u64::MAX
    }

    /// Counts one transaction under the pair (`status`, `tx_type`). The pair's
    /// count stays within the total, so the total must have counted the
    /// transaction first.
    pub fn inc_tx_with_status_and_type(&mut self, status: MetricsTxStatus, tx_type: MetricsTxType)
        requires
            old(self).wf(),
            old(self).labeled_total() < old(self).total(),
        ensures
            final(self).wf(),
            final(self).total() == old(self).total(),
            final(self).recorded@ == old(self).recorded@.push((status, tx_type)),
            tracker_counts(final(self).transactions_tracker) == tracker_counts(
                old(self).transactions_tracker,
            ).insert(pair_key(status, tx_type), (old(self).count(status, tx_type) + 1) as u64),
            forall|s: MetricsTxStatus, t: MetricsTxType|
                #[trigger] final(self).count(s, t) == if s == status && t == tx_type {
                    old(self).count(s, t) + 1
                } else {
                    old(self).count(s, t) as int
                },
    {
        proof {
            lemma_tally_bounded(self.recorded@, status, tx_type);
            assert(is_pair_key(pair_key(status, tx_type)));
        }
        let first = status.to_str();
        let second = tx_type.to_str();
        assert(first@ == status_label(status) && second@ == type_label(tx_type));
        let _ = tracker_inc(&mut self.transactions_tracker, first, second);
        let ghost prev = self.recorded@;
        self.recorded = Ghost(self.recorded@.push((status, tx_type)));
        assert(self.recorded@.drop_last() =~= prev);
        assert forall|s: MetricsTxStatus, t: MetricsTxType|
            #[trigger] self.count(s, t) == if s == status && t == tx_type {
                old(self).count(s, t) + 1
            } else {
                old(self).count(s, t) as int
            } by {
            lemma_labels_injective(s, t, status, tx_type);
        }
        assert forall|s: MetricsTxStatus, t: MetricsTxType|
            #[trigger] self.count(s, t) == tally(self.recorded@, s, t) by {
            assert(old(self).count(s, t) == tally(prev, s, t));
        }
        assert forall|k: (Seq<char>, Seq<char>)| #[trigger]
            tracker_counts(self.transactions_tracker).contains_key(k) implies is_pair_key(k)
                && tracker_counts(self.transactions_tracker)[k] > 0 by {
            if k != pair_key(status, tx_type) {
                assert(tracker_counts(old(self).transactions_tracker).contains_key(k));
            } else {
                assert(old(self).count(status, tx_type) == tally(prev, status, tx_type));
                assert(is_pair_key(pair_key(status, tx_type)));
            }
        }
    }

    /// Counts one accepted transaction in the total.
    pub fn inc_tx(&mut self)
        requires
            old(self).wf(),
            old(self).total() < u64::MAX,
        ensures
            final(self).wf(),
            final(self).total() == old(self).total() + 1,
            final(self).recorded@ == old(self).recorded@,
            tracker_counts(final(self).transactions_tracker) == tracker_counts(
                old(self).transactions_tracker,
            ),
            forall|s: MetricsTxStatus, t: MetricsTxType|
                #[trigger] final(self).count(s, t) == old(self).count(s, t),
    {
        counter_inc(&mut self.transactions_total);
        assert forall|s: MetricsTxStatus, t: MetricsTxType|
            #[trigger] self.count(s, t) == tally(self.recorded@, s, t) by {
            assert(old(self).count(s, t) == tally(old(self).recorded@, s, t));
        }
    }

    /// The counters in the Prometheus text format.
    pub fn gather_metrics(&self) -> (r: String)
        requires
            self.wf(),
        ensures
            r@ == self.rendered(),
    {
        text_or_empty(encode_text(&self.transactions_total, &self.transactions_tracker))
    }
}

impl Default for Metrics {
    fn default() -> (r: Self)
        ensures
            r.wf(),
            r.total() == 0,
            r.recorded@ == Seq::<Event>::empty(),
            tracker_counts(r.transactions_tracker) == no_children(),
    {
        Metrics::new()
    }
}

/// The exported text, or an empty one where none was produced.
pub fn text_or_empty(text: Option<String>) -> (r: String)
    ensures
        r@ == match text {
            Some(t) => t@,
            None => Seq::<char>::empty(),
        },
{
    match text {
        Some(t) => t,
        None => String::new(),
    }
}

proof fn lemma_tally_bounded(events: Seq<Event>, s: MetricsTxStatus, t: MetricsTxType)
    ensures
        tally(events, s, t) <= events.len(),
    decreases events.len(),
{
    if events.len() > 0 {
        lemma_tally_bounded(events.drop_last(), s, t);
    }
}

proof fn lemma_tally_concat(a: Seq<Event>, b: Seq<Event>, s: MetricsTxStatus, t: MetricsTxType)
    ensures
        tally(a + b, s, t) == tally(a, s, t) + tally(b, s, t),
    decreases b.len(),
{
    if b.len() > 0 {
        assert((a + b).drop_last() =~= a + b.drop_last());
        lemma_tally_concat(a, b.drop_last(), s, t);
    } else {
        assert(a + b =~= a);
    }
}

proof fn lemma_tally_repeated(e: Event, k: nat, s: MetricsTxStatus, t: MetricsTxType)
    ensures
        tally(repeated(e, k), s, t) == if e == (s, t) {
            k
        } else {
            0
        },
    decreases k,
{
    if k > 0 {
        assert(repeated(e, k).drop_last() =~= repeated(e, (k - 1) as nat));
        lemma_tally_repeated(e, (k - 1) as nat, s, t);
    }
}

/// Counters that recorded `k1` transactions as (succeeded, normal), then `k2`
/// as (failed, blobs), then `k3` as (succeeded, blobs), each also counted once
/// in the total, hold exactly `k1`, `k2` and `k3` under those pairs, none under
/// (failed, normal), and `k1 + k2 + k3` in the total.
pub proof fn lemma_three_groups(m: Metrics, k1: nat, k2: nat, k3: nat)
    requires
        m.wf(),
        m.recorded@ == repeated((MetricsTxStatus::Succeeded, MetricsTxType::Normal), k1)
            + repeated((MetricsTxStatus::Failed, MetricsTxType::Blobs), k2)
            + repeated((MetricsTxStatus::Succeeded, MetricsTxType::Blobs), k3),
        m.total() == m.labeled_total(),
    ensures
        m.count(MetricsTxStatus::Succeeded, MetricsTxType::Normal) == k1,
        m.count(MetricsTxStatus::Failed, MetricsTxType::Blobs) == k2,
        m.count(MetricsTxStatus::Succeeded, MetricsTxType::Blobs) == k3,
        m.count(MetricsTxStatus::Failed, MetricsTxType::Normal) == 0,
        m.total() == k1 + k2 + k3,
{
    let sn = (MetricsTxStatus::Succeeded, MetricsTxType::Normal);
    let fb = (MetricsTxStatus::Failed, MetricsTxType::Blobs);
    let sb = (MetricsTxStatus::Succeeded, MetricsTxType::Blobs);
    let fnn = (MetricsTxStatus::Failed, MetricsTxType::Normal);
    let a = repeated(sn, k1);
    let b = repeated(fb, k2);
    let c = repeated(sb, k3);
    assert forall|s: MetricsTxStatus, t: MetricsTxType|
        #[trigger] tally(a + b + c, s, t) == tally(a, s, t) + tally(b, s, t) + tally(c, s, t) by {
        lemma_tally_concat(a, b, s, t);
        lemma_tally_concat(a + b, c, s, t);
    }
    lemma_tally_repeated(sn, k1, sn.0, sn.1);
    lemma_tally_repeated(fb, k2, sn.0, sn.1);
    lemma_tally_repeated(sb, k3, sn.0, sn.1);
    lemma_tally_repeated(sn, k1, fb.0, fb.1);
    lemma_tally_repeated(fb, k2, fb.0, fb.1);
    lemma_tally_repeated(sb, k3, fb.0, fb.1);
    lemma_tally_repeated(sn, k1, sb.0, sb.1);
    lemma_tally_repeated(fb, k2, sb.0, sb.1);
    lemma_tally_repeated(sb, k3, sb.0, sb.1);
    lemma_tally_repeated(sn, k1, fnn.0, fnn.1);
    lemma_tally_repeated(fb, k2, fnn.0, fnn.1);
    lemma_tally_repeated(sb, k3, fnn.0, fnn.1);
    assert(m.count(sn.0, sn.1) == tally(m.recorded@, sn.0, sn.1));
    assert(m.count(fb.0, fb.1) == tally(m.recorded@, fb.0, fb.1));
    assert(m.count(sb.0, sb.1) == tally(m.recorded@, sb.0, sb.1));
    assert(m.count(fnn.0, fnn.1) == tally(m.recorded@, fnn.0, fnn.1));
}

/// The exported text is a function of the counts alone: two well-formed
/// registries with the same total and the same count under every label pair
/// render the same text, however they got there.
pub proof fn lemma_render_pure(m1: Metrics, m2: Metrics)
    requires
        m1.wf(),
        m2.wf(),
        m1.total() == m2.total(),
        forall|s: MetricsTxStatus, t: MetricsTxType| #[trigger] m1.count(s, t) == m2.count(s, t),
    ensures
        m1.rendered() == m2.rendered(),
{
    let c1 = tracker_counts(m1.transactions_tracker);
    let c2 = tracker_counts(m2.transactions_tracker);
    assert forall|k: (Seq<char>, Seq<char>)| #[trigger] c1.contains_key(k) implies c2.contains_key(k)
        && c2[k] == c1[k] by {
        let s = if k.0 == status_label(MetricsTxStatus::Failed) {
            MetricsTxStatus::Failed
        } else {
            MetricsTxStatus::Succeeded
        };
        let t = if k.1 == type_label(MetricsTxType::Normal) {
            MetricsTxType::Normal
        } else {
            MetricsTxType::Blobs
        };
        assert(k == pair_key(s, t));
        assert(m1.count(s, t) == m2.count(s, t));
    }
    assert forall|k: (Seq<char>, Seq<char>)| #[trigger] c2.contains_key(k) implies c1.contains_key(k) by {
        let s = if k.0 == status_label(MetricsTxStatus::Failed) {
            MetricsTxStatus::Failed
        } else {
            MetricsTxStatus::Succeeded
        };
        let t = if k.1 == type_label(MetricsTxType::Normal) {
            MetricsTxType::Normal
        } else {
            MetricsTxType::Blobs
        };
        assert(k == pair_key(s, t));
        assert(m1.count(s, t) == m2.count(s, t));
    }
    assert(c1 =~= c2);
}

} // verus!
