//! The recurring scheduler: idempotent monthly materialization of active
//! recurring templates into concrete transaction drafts.
//!
//! Given the current month stamp, every active entry whose
//! `last_inserted_month` differs from it yields exactly one draft dated
//! today, and its stamp is advanced to the current month; all other entries
//! are left untouched. Because the stamp equality check short-circuits
//! already-materialized entries, running the scheduler twice in one month
//! materializes nothing the second time.

use vstd::prelude::*;
use crate::models::{RecurringEntry, Tag, TransactionDraft, str_eq};

verus! {

/// An entry is due when it is active and was not yet materialized in the
/// given month.
pub open spec fn is_due(e: RecurringEntry, month: Seq<char>) -> bool {
    e.active && e.last_inserted_month@ != month
}

/// The updated entry equals the old one except that its stamp now reads
/// the given month.
pub open spec fn entry_stamped(post: RecurringEntry, pre: RecurringEntry, month: Seq<char>) -> bool {
    &&& post.id == pre.id
    &&& post.source == pre.source
    &&& post.amount == pre.amount
    &&& post.kind == pre.kind
    &&& post.tag == pre.tag
    &&& post.last_inserted_month@ == month
    &&& post.active == pre.active
}

/// The draft copies the entry's fields and is dated with the given day.
pub open spec fn draft_of_entry(d: TransactionDraft, e: RecurringEntry, today: Seq<char>) -> bool {
    &&& d.source == e.source
    &&& d.amount == e.amount
    &&& d.kind == e.kind
    &&& d.tag == e.tag
    &&& d.date@ == today
}

/// The positions of the entries that are due in the given month, in order.
pub open spec fn due_indices(s: Seq<RecurringEntry>, month: Seq<char>) -> Seq<int>
    decreases s.len(),
{
    if s.len() == 0 {
        Seq::empty()
    } else {
        let rest = due_indices(s.drop_last(), month);
        if is_due(s.last(), month) {
            rest.push(s.len() - 1)
        } else {
            rest
        }
    }
}

/// Every listed position is inside the sequence and holds a due — hence
/// active — entry: an inactive entry is never materialized, whatever its
/// stamp.
pub proof fn lemma_due_indices_are_due(s: Seq<RecurringEntry>, month: Seq<char>)
    ensures
        forall|j: int| 0 <= j < due_indices(s, month).len() ==> {
            let i = #[trigger] due_indices(s, month)[j];
            0 <= i < s.len() && is_due(s[i], month) && s[i].active
        },
    decreases s.len(),
{
    if s.len() > 0 {
        lemma_due_indices_are_due(s.drop_last(), month);
        let rest = due_indices(s.drop_last(), month);
        assert(forall|j: int| 0 <= j < rest.len() ==> #[trigger] due_indices(s, month)[j]
            == rest[j]);
        assert(forall|i: int| 0 <= i < s.len() - 1 ==> s.drop_last()[i] == s[i]);
    }
}

/// With nothing due, nothing is listed.
pub proof fn lemma_no_due_no_indices(s: Seq<RecurringEntry>, month: Seq<char>)
    requires
        forall|i: int| 0 <= i < s.len() ==> !is_due(#[trigger] s[i], month),
    ensures
        due_indices(s, month).len() == 0,
    decreases s.len(),
{
    if s.len() > 0 {
        assert(forall|i: int| 0 <= i < s.len() - 1 ==> s.drop_last()[i] == s[i]);
        lemma_no_due_no_indices(s.drop_last(), month);
    }
}

/// Idempotence of the scheduler: after one run has stamped every due entry
/// with the current month, no entry is due in that month any more, so a
/// second run in the same month lists nothing to materialize.
pub proof fn lemma_scheduler_idempotent(
    pre: Seq<RecurringEntry>,
    post: Seq<RecurringEntry>,
    month: Seq<char>,
)
    requires
        post.len() == pre.len(),
        forall|i: int| 0 <= i < pre.len() && is_due(#[trigger] pre[i], month)
            ==> entry_stamped(post[i], pre[i], month),
        forall|i: int| 0 <= i < pre.len() && !is_due(#[trigger] pre[i], month)
            ==> post[i] == pre[i],
    ensures
        forall|i: int| 0 <= i < post.len() ==> !is_due(#[trigger] post[i], month),
        due_indices(post, month).len() == 0,
{
    assert(forall|i: int| 0 <= i < post.len() ==> !is_due(#[trigger] post[i], month)) by {
        assert forall|i: int| 0 <= i < post.len() implies !is_due(#[trigger] post[i], month) by {
            if is_due(pre[i], month) {
                assert(post[i].last_inserted_month@ == month);
            }
        }
    }
    lemma_no_due_no_indices(post, month);
}

/// Materialize the recurring entries that are due in the given month: one
/// draft dated `today` for each due entry, in order, and the due entries'
/// stamps advanced to `month`. Entries that are inactive or already
/// stamped with `month` are returned unchanged and yield no draft.
pub fn materialize_recurring_for_month(
    entries: &Vec<RecurringEntry>,
    month: &str,
    today: &str,
) -> (r: (Vec<TransactionDraft>, Vec<RecurringEntry>))
    ensures
        r.1@.len() == entries@.len(),
        forall|i: int| 0 <= i < entries@.len() && is_due(#[trigger] entries@[i], month@)
            ==> entry_stamped(r.1@[i], entries@[i], month@),
        forall|i: int| 0 <= i < entries@.len() && !is_due(#[trigger] entries@[i], month@)
            ==> r.1@[i] == entries@[i],
        r.0@.len() == due_indices(entries@, month@).len(),
        forall|j: int| 0 <= j < r.0@.len() ==> draft_of_entry(
            #[trigger] r.0@[j],
            entries@[due_indices(entries@, month@)[j]],
            today@,
        ),
{
    let mut drafts: Vec<TransactionDraft> = Vec::new();
    let mut updated: Vec<RecurringEntry> = Vec::new();
    let n = entries.len();
    proof {
        assert(entries@.subrange(0, 0) =~= Seq::<RecurringEntry>::empty());
        lemma_due_indices_are_due(entries@, month@);
    }
    let mut i: usize = 0;
    while i < n
        invariant
            i <= n,
            n == entries@.len(),
            updated@.len() == i,
            forall|k: int| 0 <= k < i && is_due(#[trigger] entries@[k], month@)
                ==> entry_stamped(updated@[k], entries@[k], month@),
            forall|k: int| 0 <= k < i && !is_due(#[trigger] entries@[k], month@)
                ==> updated@[k] == entries@[k],
            drafts@.len() == due_indices(entries@.subrange(0, i as int), month@).len(),
            forall|j: int| 0 <= j < drafts@.len() ==> {
                let di = due_indices(entries@.subrange(0, i as int), month@)[j];
                0 <= di < i && draft_of_entry(#[trigger] drafts@[j], entries@[di], today@)
            },
        decreases n - i,
    {
        let ghost pre = entries@.subrange(0, i as int);
        let ghost post = entries@.subrange(0, i as int + 1);
        proof {
            assert(post.drop_last() =~= pre);
            assert(post.last() == entries@[i as int]);
            lemma_due_indices_are_due(post, month@);
            assert(forall|j: int| 0 <= j < due_indices(pre, month@).len()
                ==> #[trigger] due_indices(post, month@)[j] == due_indices(pre, month@)[j]);
        }
        let e = &entries[i];
        let stale = e.active && !str_eq(e.last_inserted_month.as_str(), month);
        if stale {
            drafts.push(
                TransactionDraft {
                    source: e.source.clone(),
                    amount: e.amount,
                    kind: e.kind,
                    tag: Tag(e.tag.0.clone()),
                    date: owned_text(today),
                },
            );
            updated.push(
                RecurringEntry {
                    id: e.id,
                    source: e.source.clone(),
                    amount: e.amount,
                    kind: e.kind,
                    tag: Tag(e.tag.0.clone()),
                    last_inserted_month: owned_text(month),
                    active: e.active,
                },
            );
        } else {
            updated.push(
                RecurringEntry {
                    id: e.id,
                    source: e.source.clone(),
                    amount: e.amount,
                    kind: e.kind,
                    tag: Tag(e.tag.0.clone()),
                    last_inserted_month: e.last_inserted_month.clone(),
                    active: e.active,
                },
            );
        }
        i += 1;
    }
    proof {
        assert(entries@.subrange(0, n as int) =~= entries@);
    }
    (drafts, updated)
}

/// Copy a string slice into an owned string.
fn owned_text(s: &str) -> (r: String)
    ensures
        r@ == s@,
{
    s.to_owned()
}

/// Relies on `chrono::Local::now` and `DateTime::format` with `%Y-%m-%d`:
/// the local calendar date. Nothing is promised of the result, since it
/// depends on the clock and the machine's time zone.
#[verifier::external_body]
fn local_date_text() -> String {
    chrono::Local::now().format("%Y-%m-%d").to_string()
}

/// Relies on `chrono::Local::now` and `DateTime::format` with `%Y-%m`: the
/// local month stamp. Nothing is promised of the result, since it depends
/// on the clock and the machine's time zone.
#[verifier::external_body]
fn local_month_text() -> String {
    chrono::Local::now().format("%Y-%m").to_string()
}

/// Materialize the recurring entries that are due now: read the current
/// month stamp and date from the clock, and run the scheduler with them.
/// Returns the stamp and date used, the drafts, and the updated entries;
/// whatever the clock said, the result is exactly a run of
/// [`materialize_recurring_for_month`] on the returned stamp and date.
pub fn materialize_recurring_now(entries: &Vec<RecurringEntry>) -> (r: (
    String,
    String,
    Vec<TransactionDraft>,
    Vec<RecurringEntry>,
))
    ensures
        r.3@.len() == entries@.len(),
        forall|i: int| 0 <= i < entries@.len() && is_due(#[trigger] entries@[i], r.0@)
            ==> entry_stamped(r.3@[i], entries@[i], r.0@),
        forall|i: int| 0 <= i < entries@.len() && !is_due(#[trigger] entries@[i], r.0@)
            ==> r.3@[i] == entries@[i],
        r.2@.len() == due_indices(entries@, r.0@).len(),
        forall|j: int| 0 <= j < r.2@.len() ==> draft_of_entry(
            #[trigger] r.2@[j],
            entries@[due_indices(entries@, r.0@)[j]],
            r.1@,
        ),
{
    let month = local_month_text();
    let today = local_date_text();
    let (drafts, updated) = materialize_recurring_for_month(entries, month.as_str(), today.as_str());
    (month, today, drafts, updated)
}

} // verus!
