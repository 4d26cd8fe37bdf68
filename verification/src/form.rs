//! The form editor: the fields of a single in-progress transaction and
//! their active-field cursor.
//!
//! Free-text fields (source, amount, date) accept append-character and
//! remove-last-character edits; the kind and recurring fields toggle; the
//! tag field is a cyclic index over the tag vocabulary. Amount text is
//! parsed only at submit time.

use vstd::prelude::*;
use crate::models::TransactionType;

verus! {

/// The form's fields, in the fixed order the cursor cycles through.
#[derive(Clone, Copy, PartialEq, Eq, Structural, Debug)]
pub enum Field {
    Source,
    Amount,
    Kind,
    Tag,
    Date,
    Recurring,
}

impl Field {
    /// The field after this one in the cycle.
    pub open spec fn spec_next(self) -> Field {
        match self {
            Field::Source => Field::Amount,
            Field::Amount => Field::Kind,
            Field::Kind => Field::Tag,
            Field::Tag => Field::Date,
            Field::Date => Field::Recurring,
            Field::Recurring => Field::Source,
        }
    }

    /// Advance circularly to the next field.
    pub fn next(self) -> (r: Field)
        ensures
            r == self.spec_next(),
    {
        match self {
            Field::Source => Field::Amount,
            Field::Amount => Field::Kind,
            Field::Kind => Field::Tag,
            Field::Tag => Field::Date,
            Field::Date => Field::Recurring,
            Field::Recurring => Field::Source,
        }
    }
}

/// The in-progress transaction being created or edited.
pub struct TransactionForm {
    /// Free-text source label.
    pub source: String,
    /// Amount as text; parsed only at submit time.
    pub amount: String,
    /// Credit or debit.
    pub kind: TransactionType,
    /// Index into the tag vocabulary.
    pub tag_index: usize,
    /// Free-text date.
    pub date: String,
    /// Whether submitting also creates a recurring template.
    pub recurring: bool,
    /// The field the cursor is on.
    pub active: Field,
}

/// The form's default state: blank text fields, `Debit`, the first tag,
/// not recurring, cursor on the source field.
pub open spec fn is_blank_form(f: TransactionForm) -> bool {
    &&& f.source@ == Seq::<char>::empty()
    &&& f.amount@ == Seq::<char>::empty()
    &&& f.kind == TransactionType::Debit
    &&& f.tag_index == 0
    &&& f.date@ == Seq::<char>::empty()
    &&& f.recurring == false
    &&& f.active == Field::Source
}

/// How an append-character edit changes the form: the active free-text
/// field gains `c` at its end; every other field, and the cursor, keep
/// their values; a non-text active field leaves the form untouched.
pub open spec fn pushed_form(pre: TransactionForm, post: TransactionForm, c: char) -> bool {
    &&& pre.active == Field::Source ==> post.source@ == pre.source@.push(c) && post.amount
        == pre.amount && post.date == pre.date
    &&& pre.active == Field::Amount ==> post.amount@ == pre.amount@.push(c) && post.source
        == pre.source && post.date == pre.date
    &&& pre.active == Field::Date ==> post.date@ == pre.date@.push(c) && post.source
        == pre.source && post.amount == pre.amount
    &&& pre.active != Field::Source && pre.active != Field::Amount && pre.active != Field::Date
        ==> post == pre
    &&& post.kind == pre.kind
    &&& post.tag_index == pre.tag_index
    &&& post.recurring == pre.recurring
    &&& post.active == pre.active
}

/// How a remove-last-character edit changes the form: the active free-text
/// field loses its last character (or stays empty); every other field, and
/// the cursor, keep their values; a non-text active field leaves the form
/// untouched.
pub open spec fn popped_form(pre: TransactionForm, post: TransactionForm) -> bool {
    &&& pre.active == Field::Source ==> post.source@ == (if pre.source@.len() > 0 {
        pre.source@.drop_last()
    } else {
        pre.source@
    }) && post.amount == pre.amount && post.date == pre.date
    &&& pre.active == Field::Amount ==> post.amount@ == (if pre.amount@.len() > 0 {
        pre.amount@.drop_last()
    } else {
        pre.amount@
    }) && post.source == pre.source && post.date == pre.date
    &&& pre.active == Field::Date ==> post.date@ == (if pre.date@.len() > 0 {
        pre.date@.drop_last()
    } else {
        pre.date@
    }) && post.source == pre.source && post.amount == pre.amount
    &&& pre.active != Field::Source && pre.active != Field::Amount && pre.active != Field::Date
        ==> post == pre
    &&& post.kind == pre.kind
    &&& post.tag_index == pre.tag_index
    &&& post.recurring == pre.recurring
    &&& post.active == pre.active
}

impl TransactionForm {
    /// A fresh form in its default state.
    pub fn new() -> (r: TransactionForm)
        ensures
            is_blank_form(r),
    {
        TransactionForm {
            source: String::new(),
            amount: String::new(),
            kind: TransactionType::Debit,
            tag_index: 0,
            date: String::new(),
            recurring: false,
            active: Field::Source,
        }
    }

    /// Discard all edits and return to the default state.
    pub fn reset(&mut self)
        ensures
            is_blank_form(*final(self)),
    {
        *self = TransactionForm::new();
    }

    /// Flip the kind between `Credit` and `Debit`.
    pub fn toggle_kind(&mut self)
        ensures
            (*final(self) == (TransactionForm {
                kind: old(self).kind.spec_toggled(),
                ..*old(self)
            })),
    {
        self.kind = self.kind.toggled();
    }

    /// Flip the recurring flag.
    pub fn toggle_recurring(&mut self)
        ensures
            (*final(self) == (TransactionForm { recurring: !old(self).recurring, ..*old(self) })),
    {
        self.recurring = !self.recurring;
    }

    /// Step the tag index to its cyclic successor in a vocabulary of
    /// `len` tags: the index wraps from the last tag to the first.
    pub fn next_tag(&mut self, len: usize)
        requires
            old(self).tag_index < len,
        ensures
            final(self).tag_index as int == (old(self).tag_index + 1) % (len as int),
            final(self).tag_index < len,
            (*final(self) == (TransactionForm {
                tag_index: final(self).tag_index,
                ..*old(self)
            })),
    {
        if self.tag_index + 1 == len {
            self.tag_index = 0;
            proof {
                assert((len as int) % (len as int) == 0) by (nonlinear_arith)
                    requires len > 0;
            }
        } else {
            self.tag_index = self.tag_index + 1;
            proof {
                vstd::arithmetic::div_mod::lemma_small_mod((old(self).tag_index + 1) as nat, len as nat);
            }
        }
    }

    /// Step the tag index to its cyclic predecessor in a vocabulary of
    /// `len` tags: the index wraps from the first tag to the last.
    pub fn prev_tag(&mut self, len: usize)
        requires
            old(self).tag_index < len,
        ensures
            final(self).tag_index as int == (old(self).tag_index + len - 1) % (len as int),
            final(self).tag_index < len,
            (*final(self) == (TransactionForm {
                tag_index: final(self).tag_index,
                ..*old(self)
            })),
    {
        if self.tag_index == 0 {
            self.tag_index = len - 1;
            proof {
                vstd::arithmetic::div_mod::lemma_small_mod((len - 1) as nat, len as nat);
            }
        } else {
            self.tag_index = self.tag_index - 1;
            proof {
                let i = old(self).tag_index as int;
                let m = len as int;
                assert(0 < i < m ==> (i + m - 1) % m == i - 1) by (nonlinear_arith);
            }
        }
    }

    /// Append a character to the active free-text field; a no-op when the
    /// cursor is on a non-text field.
    pub fn push_char(&mut self, c: char)
        ensures
            pushed_form(*old(self), *final(self), c),
    {
        match self.active {
            Field::Source => self.source.push(c),
            Field::Amount => self.amount.push(c),
            Field::Date => self.date.push(c),
            _ => (),
        }
    }

    /// Remove the last character of the active free-text field; a no-op
    /// when that field is empty or the cursor is on a non-text field.
    pub fn pop_char(&mut self)
        ensures
            popped_form(*old(self), *final(self)),
    {
        match self.active {
            Field::Source => {
                let _ = self.source.pop();
            },
            Field::Amount => {
                let _ = self.amount.pop();
            },
            Field::Date => {
                let _ = self.date.pop();
            },
            _ => (),
        }
    }
}

} // verus!
