//! The application state: the top-level mode, the form editor, the popup
//! controller, the selection, and the in-memory snapshot of the ledger.
//!
//! The state machine owns the form and popup exclusively. Storage is a
//! collaborator outside this crate: a method that decides on a persistent
//! mutation returns a [`Command`] describing it, and the caller hands the
//! refreshed snapshot back through [`App::refresh`].

use vstd::prelude::*;
use crate::amount::{format_cents, parse_amount, spec_format_cents, spec_parse_amount};
use crate::form::{Field, TransactionForm, is_blank_form};
use crate::models::{Tag, Transaction, RecurringEntry, TransactionDraft, normalized, draft_matches_transaction};

verus! {

/// The top-level input-routing state.
#[derive(Clone, Copy, PartialEq, Eq, Structural, Debug)]
pub enum Mode {
    /// Browsing the transaction list.
    Normal,
    /// The form is active, creating or editing.
    Adding,
    /// The read-only aggregated view.
    Stats,
    /// A modal dialog is active; the underlying mode is suspended.
    Popup,
}

/// The action a confirmation popup is bound to.
#[derive(Clone, Copy, PartialEq, Eq, Structural, Debug)]
pub enum PopupAction {
    /// Delete the transaction with this store id.
    DeleteTransaction(i32),
    /// Leave the application.
    Quit,
}

/// A pending dialog: a confirmation bound to one action, or a plain
/// informational message.
#[derive(Clone, Debug)]
pub enum PopupKind {
    /// Ask the user; the bound action runs only on explicit confirmation.
    Confirm { title: String, message: String, action: PopupAction },
    /// Tell the user; closing performs nothing.
    Info { title: String, message: String },
}

/// The one storage mutation a handler asks its caller to perform. The
/// caller executes it against the store and then refreshes the snapshot.
#[derive(Clone, Debug)]
pub enum Command {
    /// Nothing to persist.
    NoEffect,
    /// Leave the application.
    Quit,
    /// Delete the transaction with this store id.
    DeleteTransaction(i32),
    /// Create a transaction; when `recurring` is set, also create a
    /// recurring template with the same source, amount, kind and tag.
    SaveNew { draft: TransactionDraft, recurring: bool },
    /// Replace every field of the transaction with this store id.
    SaveEdit { id: i32, draft: TransactionDraft },
}

/// The application state owned by the event loop.
pub struct App {
    /// Which handler receives input.
    pub mode: Mode,
    /// The in-progress transaction form.
    pub form: TransactionForm,
    /// `Some(id)` while editing that transaction; `None` while creating.
    pub editing: Option<i32>,
    /// The tag vocabulary, fixed at startup.
    pub tags: Vec<Tag>,
    /// Snapshot of the stored transactions, replaced wholesale on refresh.
    pub transactions: Vec<Transaction>,
    /// Snapshot of the stored recurring entries.
    pub recurring_entries: Vec<RecurringEntry>,
    /// Zero-based index into the transaction list.
    pub selected: usize,
    /// The currency symbol, for display only.
    pub currency: String,
    /// The pending dialog, at most one at a time.
    pub popup: Option<PopupKind>,
}

/// Where the selection lands when the list is replaced: unchanged while
/// still in range, the last index when the list shrank past it, and zero
/// when the list is empty.
pub open spec fn clamped_selection(sel: int, len: int) -> int {
    if len == 0 {
        0
    } else if sel < len {
        sel
    } else {
        len - 1
    }
}

impl App {
    /// The state's invariant: the selection is a valid index whenever the
    /// list is non-empty and zero otherwise, and the form's tag index is a
    /// valid index into the vocabulary whenever there is one.
    pub open spec fn inv(self) -> bool {
        &&& self.transactions@.len() == 0 ==> self.selected == 0
        &&& self.transactions@.len() > 0 ==> (self.selected as int) < self.transactions@.len()
        &&& self.tags@.len() == 0 ==> self.form.tag_index == 0
        &&& self.tags@.len() > 0 ==> (self.form.tag_index as int) < self.tags@.len()
    }

    /// Build the initial state: `Normal` mode, a blank form, no popup, the
    /// selection on the first row, and the vocabulary built by normalizing
    /// the configured labels in order.
    pub fn new(
        currency: String,
        tag_labels: &Vec<String>,
        transactions: Vec<Transaction>,
        recurring_entries: Vec<RecurringEntry>,
    ) -> (r: App)
        ensures
            r.inv(),
            r.mode == Mode::Normal,
            is_blank_form(r.form),
            r.editing is None,
            r.popup is None,
            r.selected == 0,
            r.currency == currency,
            r.transactions == transactions,
            r.recurring_entries == recurring_entries,
            r.tags@.len() == tag_labels@.len(),
            forall|i: int| 0 <= i < tag_labels@.len() ==> #[trigger] r.tags@[i].label()
                == normalized(tag_labels@[i]@),
    {
        let mut tags: Vec<Tag> = Vec::new();
        let n = tag_labels.len();
        let mut i: usize = 0;
        while i < n
            invariant
                i <= n,
                n == tag_labels@.len(),
                tags@.len() == i,
                forall|j: int| 0 <= j < i ==> #[trigger] tags@[j].label() == normalized(
                    tag_labels@[j]@,
                ),
            decreases n - i,
        {
            tags.push(Tag::from_str(tag_labels[i].as_str()));
            i += 1;
        }
        App {
            mode: Mode::Normal,
            form: TransactionForm::new(),
            editing: None,
            tags,
            transactions,
            recurring_entries,
            selected: 0,
            currency,
            popup: None,
        }
    }

    /// Replace the snapshot with freshly listed transactions and recurring
    /// entries, clamping the selection so it stays within the new list.
    pub fn refresh(
        &mut self,
        transactions: Vec<Transaction>,
        recurring_entries: Vec<RecurringEntry>,
    )
        requires
            old(self).inv(),
        ensures
            final(self).inv(),
            final(self).transactions == transactions,
            final(self).recurring_entries == recurring_entries,
            final(self).selected as int == clamped_selection(
                old(self).selected as int,
                transactions@.len() as int,
            ),
            final(self).mode == old(self).mode,
            final(self).form == old(self).form,
            final(self).editing == old(self).editing,
            final(self).tags == old(self).tags,
            final(self).currency == old(self).currency,
            final(self).popup == old(self).popup,
    {
        self.transactions = transactions;
        self.recurring_entries = recurring_entries;
        let len = self.transactions.len();
        if len == 0 {
            self.selected = 0;
        } else if self.selected >= len {
            self.selected = len - 1;
        }
    }

    /// The selected transaction, or `None` when the list is empty (or the
    /// selection is out of range, which the invariant rules out).
    pub fn selected_transaction(&self) -> (r: Option<&Transaction>)
        ensures
            (self.selected as int) < self.transactions@.len() ==> (r matches Some(t) && *t
                == self.transactions@[self.selected as int]),
            (self.selected as int) >= self.transactions@.len() ==> r is None,
    {
        if self.selected < self.transactions.len() {
            Some(&self.transactions[self.selected])
        } else {
            None
        }
    }

    /// The id the selected transaction would be deleted under, or `None`
    /// when the list is empty: the caller performs the deletion against the
    /// store and refreshes the snapshot.
    pub fn delete_selected(&self) -> (r: Option<i32>)
        ensures
            (self.selected as int) < self.transactions@.len() ==> r == Some(
                self.transactions@[self.selected as int].id,
            ),
            (self.selected as int) >= self.transactions@.len() ==> r is None,
    {
        if self.selected < self.transactions.len() {
            Some(self.transactions[self.selected].id)
        } else {
            None
        }
    }

    /// Open a confirmation popup bound to the given action: the mode
    /// becomes `Popup` and nothing else changes.
    pub fn open_confirm_popup(&mut self, title: &str, message: String, action: PopupAction)
        ensures
            final(self).mode == Mode::Popup,
            (final(self).popup matches Some(PopupKind::Confirm { title: t, message: m, action: a })
                && t@ == title@ && m == message && a == action),
            final(self).form == old(self).form,
            final(self).editing == old(self).editing,
            final(self).tags == old(self).tags,
            final(self).transactions == old(self).transactions,
            final(self).recurring_entries == old(self).recurring_entries,
            final(self).selected == old(self).selected,
            final(self).currency == old(self).currency,
    {
        self.popup = Some(
            PopupKind::Confirm { title: title.to_owned(), message, action },
        );
        self.mode = Mode::Popup;
    }

    /// Open an informational popup: the mode becomes `Popup` and nothing
    /// else changes.
    pub fn open_info_popup(&mut self, title: &str, message: String)
        ensures
            final(self).mode == Mode::Popup,
            (final(self).popup matches Some(PopupKind::Info { title: t, message: m }) && t@
                == title@ && m == message),
            final(self).form == old(self).form,
            final(self).editing == old(self).editing,
            final(self).tags == old(self).tags,
            final(self).transactions == old(self).transactions,
            final(self).recurring_entries == old(self).recurring_entries,
            final(self).selected == old(self).selected,
            final(self).currency == old(self).currency,
    {
        self.popup = Some(PopupKind::Info { title: title.to_owned(), message });
        self.mode = Mode::Popup;
    }

    /// Close the popup and return to `Normal` mode; nothing else changes.
    pub fn close_popup(&mut self)
        ensures
            final(self).mode == Mode::Normal,
            final(self).popup is None,
            final(self).form == old(self).form,
            final(self).editing == old(self).editing,
            final(self).tags == old(self).tags,
            final(self).transactions == old(self).transactions,
            final(self).recurring_entries == old(self).recurring_entries,
            final(self).selected == old(self).selected,
            final(self).currency == old(self).currency,
    {
        self.popup = None;
        self.mode = Mode::Normal;
    }
}

/// How `begin_edit_selected` fills the state from the selected transaction
/// `tx`: the form holds every field of `tx` (the amount rendered as text,
/// the tag resolved to the first vocabulary index with its label, falling
/// back to index zero), the cursor returns to the source field, the mode is
/// `Adding`, and the edit target is `tx`'s id. The recurring flag and the
/// rest of the state are untouched.
pub open spec fn begin_edit_transition(pre: App, post: App) -> bool {
    let tx = pre.transactions@[pre.selected as int];
    &&& post.mode == Mode::Adding
    &&& post.editing == Some(tx.id)
    &&& post.form.source == tx.source
    &&& post.form.amount@ == spec_format_cents(tx.amount)
    &&& post.form.kind == tx.kind
    &&& (if (exists|i: int| 0 <= i < pre.tags@.len() && (#[trigger] pre.tags@[i].label())
        == tx.tag.label()) {
        &&& (post.form.tag_index as int) < pre.tags@.len()
        &&& pre.tags@[post.form.tag_index as int].label() == tx.tag.label()
        &&& forall|j: int| 0 <= j < post.form.tag_index ==> (#[trigger] pre.tags@[j].label())
            != tx.tag.label()
    } else {
        post.form.tag_index == 0
    })
    &&& post.form.date == tx.date
    &&& post.form.recurring == pre.form.recurring
    &&& post.form.active == Field::Source
    &&& post.tags == pre.tags
    &&& post.transactions == pre.transactions
    &&& post.recurring_entries == pre.recurring_entries
    &&& post.selected == pre.selected
    &&& post.currency == pre.currency
    &&& post.popup == pre.popup
}

/// How a submitted form resolves into a draft: the text fields are taken
/// as they stand, the amount text is parsed with fallback `0`, and the tag
/// index is resolved against the vocabulary with the reserved `"other"`
/// label as the out-of-range fallback.
pub open spec fn submit_draft(pre: App, d: TransactionDraft) -> bool {
    &&& d.source == pre.form.source
    &&& d.amount == spec_parse_amount(pre.form.amount@)
    &&& d.kind == pre.form.kind
    &&& (if (pre.form.tag_index as int) < pre.tags@.len() {
        d.tag == pre.tags@[pre.form.tag_index as int]
    } else {
        d.tag.label() == "other"@
    })
    &&& d.date == pre.form.date
}

/// Which command a submit issues: a full-record update when an edit target
/// is set, otherwise a create — carrying the recurring flag, so that only
/// a create can also create a recurring template.
pub open spec fn submit_command(pre: App, cmd: Command) -> bool {
    match pre.editing {
        Some(id) => (cmd matches Command::SaveEdit { id: cid, draft } && cid == id
            && submit_draft(pre, draft)),
        None => (cmd matches Command::SaveNew { draft, recurring } && recurring
            == pre.form.recurring && submit_draft(pre, draft)),
    }
}

impl App {
    /// Resolve the form into the one storage mutation a submit asks for,
    /// and clear the edit target. Unparsable amount text resolves to `0`
    /// and an out-of-range tag index to the reserved `"other"` tag — the
    /// documented defaults, not errors. The form itself is left for the
    /// caller to reset, and the snapshot for the caller to refresh once
    /// the command has been executed.
    pub fn save_transaction(&mut self) -> (cmd: Command)
        requires
            old(self).inv(),
        ensures
            final(self).inv(),
            (*final(self) == (App { editing: None, ..*old(self) })),
            submit_command(*old(self), cmd),
    {
        let amount = parse_amount(self.form.amount.as_str());
        let tag: Tag = if self.form.tag_index < self.tags.len() {
            Tag(self.tags[self.form.tag_index].0.clone())
        } else {
            let t = Tag::from_str("other");
            proof {
                reveal_strlit("other");
                assert(normalized("other"@) =~= "other"@);
            }
            t
        };
        let draft = TransactionDraft {
            source: self.form.source.clone(),
            amount,
            kind: self.form.kind,
            tag,
            date: self.form.date.clone(),
        };
        match self.editing {
            Some(id) => {
                self.editing = None;
                Command::SaveEdit { id, draft }
            },
            None => {
                Command::SaveNew { draft, recurring: self.form.recurring }
            },
        }
    }

    /// Begin editing the selected transaction: copy its fields into the
    /// form, resolve its tag to a vocabulary index (falling back to index
    /// zero when the label is not in the vocabulary — a recoverable
    /// inconsistency, not an error), set the edit target to its id and the
    /// mode to `Adding`. A no-op when the list is empty.
    pub fn begin_edit_selected(&mut self)
        requires
            old(self).inv(),
        ensures
            final(self).inv(),
            old(self).transactions@.len() == 0 ==> *final(self) == *old(self),
            old(self).transactions@.len() > 0 ==> begin_edit_transition(*old(self), *final(self)),
    {
        if self.transactions.len() == 0 {
            return;
        }
        let tx = &self.transactions[self.selected];
        self.form.source = tx.source.clone();
        self.form.amount = format_cents(tx.amount);
        self.form.kind = tx.kind;
        // Find the first vocabulary index carrying the transaction's tag.
        let n = self.tags.len();
        let mut idx: usize = 0;
        let mut found = false;
        let mut i: usize = 0;
        while i < n && !found
            invariant
                i <= n,
                n == self.tags@.len(),
                found ==> idx < n && self.tags@[idx as int].label() == tx.tag.label() && forall|
                    j: int,
                | 0 <= j < idx ==> (#[trigger] self.tags@[j].label()) != tx.tag.label(),
                !found ==> idx == 0 && forall|j: int| 0 <= j < i ==> (
                #[trigger] self.tags@[j].label()) != tx.tag.label(),
            decreases n - i + (if found { 0int } else { 1int }),
        {
            if self.tags[i].0 == tx.tag.0 {
                idx = i;
                found = true;
            } else {
                i += 1;
            }
        }
        self.form.tag_index = idx;
        self.form.date = tx.date.clone();
        self.form.active = Field::Source;
        self.mode = Mode::Adding;
        self.editing = Some(tx.id);
    }
}

/// Edit round-trip: beginning an edit of the selected transaction and
/// submitting the form without touching it yields a full-record update for
/// that transaction's id whose draft carries exactly the fields the
/// transaction already has — so the refreshed list is the one displayed
/// before the edit. This needs the transaction's tag label to be present
/// in the vocabulary; a label outside it would be replaced by the first
/// vocabulary tag.
pub proof fn lemma_edit_round_trip(pre: App, mid: App, post: App, cmd: Command)
    requires
        pre.inv(),
        pre.transactions@.len() > 0,
        exists|i: int| 0 <= i < pre.tags@.len() && (#[trigger] pre.tags@[i].label())
            == pre.transactions@[pre.selected as int].tag.label(),
        begin_edit_transition(pre, mid),
        post == (App { editing: None, ..mid }),
        submit_command(mid, cmd),
    ensures
        (cmd matches Command::SaveEdit { id, draft } && id
            == pre.transactions@[pre.selected as int].id && draft_matches_transaction(
            draft,
            pre.transactions@[pre.selected as int],
        )),
{
    let tx = pre.transactions@[pre.selected as int];
    crate::amount::lemma_format_parse_round_trip(tx.amount);
    assert(mid.editing == Some(tx.id));
    assert((mid.form.tag_index as int) < mid.tags@.len());
}

} // verus!
