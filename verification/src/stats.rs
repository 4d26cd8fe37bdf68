//! The stats aggregator: totals and the per-tag spending breakdown, a pure
//! function of the ledger snapshot.
//!
//! Total earned sums the credit amounts, total spent the debit amounts, and
//! the balance is their difference. The per-tag breakdown sums debit
//! amounts grouped by tag label — credits are excluded by design, since it
//! answers where spending went. Grouping is by the tag's normalized label,
//! the same equality tags use everywhere else.

use vstd::prelude::*;
use crate::models::{Tag, Transaction, TransactionType};

verus! {

/// The sum of the amounts of the transactions of one kind.
pub open spec fn sum_of_kind(txs: Seq<Transaction>, k: TransactionType) -> int
    decreases txs.len(),
{
    if txs.len() == 0 {
        0
    } else {
        sum_of_kind(txs.drop_last(), k) + if txs.last().kind == k {
            txs.last().amount as int
        } else {
            0
        }
    }
}

/// The sum of the debit amounts carrying the given tag label.
pub open spec fn spent_on_tag(txs: Seq<Transaction>, label: Seq<char>) -> int
    decreases txs.len(),
{
    if txs.len() == 0 {
        0
    } else {
        spent_on_tag(txs.drop_last(), label) + if txs.last().kind == TransactionType::Debit
            && txs.last().tag.label() == label {
            txs.last().amount as int
        } else {
            0
        }
    }
}

/// The distinct tag labels of the debit transactions, in order of first
/// appearance.
pub open spec fn debit_tag_labels(txs: Seq<Transaction>) -> Seq<Seq<char>>
    decreases txs.len(),
{
    if txs.len() == 0 {
        Seq::empty()
    } else {
        let rest = debit_tag_labels(txs.drop_last());
        if txs.last().kind == TransactionType::Debit && !rest.contains(txs.last().tag.label()) {
            rest.push(txs.last().tag.label())
        } else {
            rest
        }
    }
}

/// The grouped labels are pairwise distinct: a label is appended only when
/// it is not already present.
pub proof fn lemma_debit_tag_labels_distinct(txs: Seq<Transaction>)
    ensures
        forall|j: int, k: int| 0 <= j < k < debit_tag_labels(txs).len()
            ==> #[trigger] debit_tag_labels(txs)[j] != #[trigger] debit_tag_labels(txs)[k],
    decreases txs.len(),
{
    if txs.len() > 0 {
        lemma_debit_tag_labels_distinct(txs.drop_last());
        let rest = debit_tag_labels(txs.drop_last());
        let whole = debit_tag_labels(txs);
        if whole.len() == rest.len() + 1 {
            assert(forall|j: int| 0 <= j < rest.len() ==> whole[j] == #[trigger] rest[j]);
            assert(forall|j: int| 0 <= j < rest.len() ==> rest[j] != whole[rest.len() as int])
                by {
                assert(!rest.contains(txs.last().tag.label()));
            }
        }
    }
}

/// A label that is not among the grouped labels has no debit spending.
pub proof fn lemma_unlisted_tag_spent_zero(txs: Seq<Transaction>, label: Seq<char>)
    requires
        !debit_tag_labels(txs).contains(label),
    ensures
        spent_on_tag(txs, label) == 0,
    decreases txs.len(),
{
    if txs.len() > 0 {
        let rest = debit_tag_labels(txs.drop_last());
        if debit_tag_labels(txs) == rest.push(txs.last().tag.label()) {
            assert(forall|j: int| 0 <= j < rest.len() ==> #[trigger] rest[j] == debit_tag_labels(
                txs,
            )[j]);
        }
        assert(!rest.contains(label)) by {
            if rest.contains(label) {
                let j = choose|j: int| 0 <= j < rest.len() && rest[j] == label;
                assert(debit_tag_labels(txs)[j] == label);
            }
        }
        lemma_unlisted_tag_spent_zero(txs.drop_last(), label);
        if txs.last().kind == TransactionType::Debit && txs.last().tag.label() == label {
            assert(debit_tag_labels(txs) == rest.push(label));
            assert(debit_tag_labels(txs)[rest.len() as int] == label);
        }
    }
}

/// Derived totals of the snapshot; recomputed on demand, never stored.
pub struct StatsSnapshot {
    /// Sum of credit amounts, in hundredths.
    pub earned: u128,
    /// Sum of debit amounts, in hundredths.
    pub spent: u128,
    /// The magnitude of earned minus spent.
    pub balance_abs: u128,
    /// Whether the balance (earned minus spent) is below zero.
    pub balance_negative: bool,
    /// Debit totals per tag, keyed by normalized label, in order of first
    /// appearance; each label occurs once.
    pub per_tag: Vec<(Tag, u128)>,
}

/// Derive the stats snapshot from the transaction list.
pub fn compute_stats(txs: &Vec<Transaction>) -> (s: StatsSnapshot)
    ensures
        s.earned == sum_of_kind(txs@, TransactionType::Credit),
        s.spent == sum_of_kind(txs@, TransactionType::Debit),
        s.balance_negative == (s.earned < s.spent),
        !s.balance_negative ==> s.balance_abs == s.earned - s.spent,
        s.balance_negative ==> s.balance_abs == s.spent - s.earned,
        s.per_tag@.len() == debit_tag_labels(txs@).len(),
        forall|j: int| 0 <= j < s.per_tag@.len() ==> #[trigger] s.per_tag@[j].0.label()
            == debit_tag_labels(txs@)[j] && s.per_tag@[j].1 == spent_on_tag(
            txs@,
            s.per_tag@[j].0.label(),
        ),
{
    let mut earned: u128 = 0;
    let mut spent: u128 = 0;
    let mut per_tag: Vec<(Tag, u128)> = Vec::new();
    let n = txs.len();
    proof {
        assert(txs@.subrange(0, 0) =~= Seq::<Transaction>::empty());
    }
    let mut i: usize = 0;
    while i < n
        invariant
            i <= n,
            n == txs@.len(),
            earned == sum_of_kind(txs@.subrange(0, i as int), TransactionType::Credit),
            spent == sum_of_kind(txs@.subrange(0, i as int), TransactionType::Debit),
            earned <= i * (u64::MAX as int),
            spent <= i * (u64::MAX as int),
            per_tag@.len() == debit_tag_labels(txs@.subrange(0, i as int)).len(),
            forall|j: int| 0 <= j < per_tag@.len() ==> #[trigger] per_tag@[j].0.label()
                == debit_tag_labels(txs@.subrange(0, i as int))[j] && per_tag@[j].1
                == spent_on_tag(txs@.subrange(0, i as int), per_tag@[j].0.label())
                && per_tag@[j].1 <= spent,
        decreases n - i,
    {
        let ghost pre = txs@.subrange(0, i as int);
        let ghost post = txs@.subrange(0, i as int + 1);
        proof {
            assert(post.drop_last() =~= pre);
            assert(post.last() == txs@[i as int]);
            assert((i + 1) * (u64::MAX as int) == i * (u64::MAX as int) + u64::MAX);
        }
        let tx = &txs[i];
        match tx.kind {
            TransactionType::Credit => {
                earned = earned + tx.amount as u128;
            },
            TransactionType::Debit => {
                spent = spent + tx.amount as u128;
                // Fold the amount into this tag's group, or start a new one.
                let mut found = false;
                let mut k: usize = 0;
                let m = per_tag.len();
                while k < m && !found
                    invariant
                        k <= m,
                        m == per_tag@.len(),
                        found ==> k < m && per_tag@[k as int].0.label() == tx.tag.label(),
                        !found ==> forall|j: int| 0 <= j < k ==> #[trigger] per_tag@[j].0.label()
                            != tx.tag.label(),
                        tx == txs@[i as int],
                    decreases m - k + (if found { 0int } else { 1int }),
                {
                    if per_tag[k].0.0 == tx.tag.0 {
                        found = true;
                    } else {
                        k += 1;
                    }
                }
                if found {
                    let label = per_tag[k].0.0.clone();
                    let prev = per_tag[k].1;
                    per_tag.set(k, (Tag(label), prev + tx.amount as u128));
                    proof {
                        // The label is already grouped, so the label list is
                        // unchanged, and since the labels are pairwise
                        // distinct only group k gains this amount.
                        assert(debit_tag_labels(pre).contains(tx.tag.label())) by {
                            assert(debit_tag_labels(pre)[k as int] == tx.tag.label());
                        }
                        assert(debit_tag_labels(post) == debit_tag_labels(pre));
                        lemma_debit_tag_labels_distinct(pre);
                    }
                } else {
                    proof {
                        assert(!debit_tag_labels(pre).contains(tx.tag.label())) by {
                            if debit_tag_labels(pre).contains(tx.tag.label()) {
                                let j = choose|j: int| 0 <= j < debit_tag_labels(pre).len()
                                    && debit_tag_labels(pre)[j] == tx.tag.label();
                                assert(per_tag@[j].0.label() == tx.tag.label());
                            }
                        }
                        lemma_unlisted_tag_spent_zero(pre, tx.tag.label());
                        assert(debit_tag_labels(post) == debit_tag_labels(pre).push(
                            tx.tag.label(),
                        ));
                    }
                    let label = tx.tag.0.clone();
                    per_tag.push((Tag(label), tx.amount as u128));
                }
            },
        }
        i += 1;
    }
    proof {
        assert(txs@.subrange(0, n as int) =~= txs@);
    }
    let (balance_abs, balance_negative) = if earned >= spent {
        (earned - spent, false)
    } else {
        (spent - earned, true)
    };
    StatsSnapshot { earned, spent, balance_abs, balance_negative, per_tag }
}

} // verus!
