use vstd::prelude::*;

verus! {

/// Outcome of a transaction, as recorded in the labelled counter.
#[derive(Clone, Copy, Debug, PartialEq, Eq, Structural)]
pub enum MetricsTxStatus {
    Failed,
    Succeeded,
}

/// Kind of a transaction, as recorded in the labelled counter.
#[derive(Clone, Copy, Debug, PartialEq, Eq, Structural)]
pub enum MetricsTxType {
    Normal,
    Blobs,
}

/// Label value under which a status is exported.
pub open spec fn status_label(s: MetricsTxStatus) -> Seq<char> {
    match s {
        MetricsTxStatus::Failed => seq!['f', 'a', 'i', 'l', 'e', 'd'],
        MetricsTxStatus::Succeeded => seq!['s', 'u', 'c', 'c', 'e', 'e', 'd', 'e', 'd'],
    }
}

/// Label value under which a transaction type is exported.
pub open spec fn type_label(t: MetricsTxType) -> Seq<char> {
    match t {
        MetricsTxType::Normal => seq!['n', 'o', 'r', 'm', 'a', 'l'],
        MetricsTxType::Blobs => seq!['b', 'l', 'o', 'b', 's'],
    }
}

impl MetricsTxStatus {
    pub fn to_str(&self) -> (r: &'static str)
        ensures
            r@ == status_label(*self),
    {
        match self {
            MetricsTxStatus::Failed => {
                let r = "failed";
                proof {
                    reveal_strlit("failed");
                }
                r
            },
            MetricsTxStatus::Succeeded => {
                let r = "succeeded";
                proof {
                    reveal_strlit("succeeded");
                }
                r
            },
        }
    }
}

impl MetricsTxType {
    pub fn to_str(&self) -> (r: &'static str)
        ensures
            r@ == type_label(*self),
    {
        match self {
            MetricsTxType::Normal => {
                let r = "normal";
                proof {
                    reveal_strlit("normal");
                }
                r
            },
            MetricsTxType::Blobs => {
                let r = "blobs";
                proof {
                    reveal_strlit("blobs");
                }
                r
            },
        }
    }
}

/// Distinct label pairs stay distinct once exported.
pub proof fn lemma_labels_injective(
    s1: MetricsTxStatus,
    t1: MetricsTxType,
    s2: MetricsTxStatus,
    t2: MetricsTxType,
)
    ensures
        (status_label(s1) == status_label(s2)) == (s1 == s2),
        (type_label(t1) == type_label(t2)) == (t1 == t2),
{
    if s1 != s2 {
        assert(status_label(s1).len() != status_label(s2).len());
    }
    if t1 != t2 {
        assert(type_label(t1).len() != type_label(t2).len());
    }
}

} // verus!
