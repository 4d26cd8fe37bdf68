use fitui::models::{RecurringEntry, Tag, TransactionType};
use fitui::scheduler::{materialize_recurring_for_month, materialize_recurring_now};

fn entry(id: i32, stamp: &str, active: bool) -> RecurringEntry {
    RecurringEntry {
        id,
        source: format!("source-{}", id),
        amount: 1000 * id as u64,
        kind: TransactionType::Debit,
        tag: Tag::from_str("bills"),
        last_inserted_month: stamp.to_string(),
        active,
    }
}

#[test]
fn stale_active_entry_is_materialized() {
    // Monthly gating: a stamp of an earlier month is materialized under
    // the current one.
    let entries = vec![entry(1, "2025-05", true)];
    let (drafts, updated) = materialize_recurring_for_month(&entries, "2025-06", "2025-06-01");
    assert_eq!(drafts.len(), 1);
    assert_eq!(drafts[0].source, "source-1");
    assert_eq!(drafts[0].amount, 1000);
    assert_eq!(drafts[0].kind, TransactionType::Debit);
    assert_eq!(drafts[0].tag.as_str(), "bills");
    assert_eq!(drafts[0].date, "2025-06-01");
    assert_eq!(updated[0].last_inserted_month, "2025-06");
    assert!(updated[0].active);
}

#[test]
fn rerun_in_same_month_materializes_nothing() {
    // Monthly gating, second half: re-running with the same stamp is a
    // no-op for the already-stamped entry.
    let entries = vec![entry(1, "2025-05", true)];
    let (first, updated) = materialize_recurring_for_month(&entries, "2025-06", "2025-06-01");
    assert_eq!(first.len(), 1);
    let (second, again) = materialize_recurring_for_month(&updated, "2025-06", "2025-06-02");
    assert_eq!(second.len(), 0);
    assert_eq!(again.len(), 1);
    assert_eq!(again[0].last_inserted_month, "2025-06");
}

#[test]
fn scheduler_twice_is_idempotent() {
    // Idempotence: two runs in one month produce exactly one draft per
    // active stale entry, not two.
    let entries = vec![
        entry(1, "", true),
        entry(2, "2025-06", true),
        entry(3, "2025-01", true),
    ];
    let (first, updated) = materialize_recurring_for_month(&entries, "2025-06", "2025-06-15");
    // Entries 1 (never materialized) and 3 (stale) are due; entry 2 is not.
    assert_eq!(first.len(), 2);
    assert_eq!(first[0].source, "source-1");
    assert_eq!(first[1].source, "source-3");
    let (second, _) = materialize_recurring_for_month(&updated, "2025-06", "2025-06-15");
    assert_eq!(second.len(), 0);
}

#[test]
fn inactive_entries_are_never_materialized() {
    // However stale the stamp, an inactive entry yields nothing and is
    // left untouched.
    let entries = vec![entry(1, "", false), entry(2, "2020-01", false)];
    let (drafts, updated) = materialize_recurring_for_month(&entries, "2025-06", "2025-06-01");
    assert_eq!(drafts.len(), 0);
    assert_eq!(updated.len(), 2);
    assert_eq!(updated[0].last_inserted_month, "");
    assert_eq!(updated[1].last_inserted_month, "2020-01");
    assert!(!updated[0].active);
}

#[test]
fn materializing_now_stamps_with_the_returned_month() {
    // Whatever the clock says, the run equals a scheduler run on the
    // returned stamp and date: a never-materialized active entry yields
    // one draft dated with the returned day, and a second run with the
    // stamped entries yields none.
    let entries = vec![entry(1, "", true)];
    let (month, today, drafts, updated) = materialize_recurring_now(&entries);
    assert_eq!(drafts.len(), 1);
    assert_eq!(drafts[0].date, today);
    assert_eq!(updated[0].last_inserted_month, month);
    let (month2, _, second, _) = materialize_recurring_now(&updated);
    // Nothing is due a second time, unless the clock crossed a month
    // boundary between the two calls.
    assert!(second.is_empty() || month2 != month);
}

#[test]
fn mixed_entries_only_due_ones_materialize() {
    let entries = vec![
        entry(1, "2025-06", true),
        entry(2, "2025-05", false),
        entry(3, "2025-05", true),
    ];
    let (drafts, updated) = materialize_recurring_for_month(&entries, "2025-06", "2025-06-30");
    assert_eq!(drafts.len(), 1);
    assert_eq!(drafts[0].source, "source-3");
    assert_eq!(updated[0].last_inserted_month, "2025-06");
    assert_eq!(updated[1].last_inserted_month, "2025-05");
    assert_eq!(updated[2].last_inserted_month, "2025-06");
}
