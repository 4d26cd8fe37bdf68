//! Key dispatch: one discrete key event arrives, the handler for the
//! current mode mutates the state, and the one storage mutation the event
//! asks for — if any — is returned as a [`Command`] for the caller to
//! execute.
//!
//! While a popup is pending only the confirm and cancel keys change
//! anything: every other key is a no-op. This modality is intentional and
//! stated in [`popup_transition`].

use vstd::prelude::*;
use vstd::string::StringExecFns;
use crate::amount::{format_cents, spec_format_cents};
use crate::app::{App, Command, Mode, PopupAction, PopupKind, begin_edit_transition,
    submit_command};
use crate::form::{Field, is_blank_form, popped_form, pushed_form};
use crate::models::Transaction;

verus! {

/// A discrete key event, as the terminal reports it.
#[derive(Clone, Copy, PartialEq, Eq, Structural, Debug)]
pub enum Key {
    /// A printable character.
    Char(char),
    Up,
    Down,
    Left,
    Right,
    Tab,
    Enter,
    Esc,
    Backspace,
    /// Any key the handlers do not recognize.
    Other,
}

/// Both states browse the same data: vocabulary, snapshot, selection and
/// currency are untouched.
pub open spec fn browse_unchanged(pre: App, post: App) -> bool {
    &&& post.tags == pre.tags
    &&& post.transactions == pre.transactions
    &&& post.recurring_entries == pre.recurring_entries
    &&& post.selected == pre.selected
    &&& post.currency == pre.currency
}

/// The message of the delete confirmation popup: the question, then the
/// transaction's source and its amount behind the currency symbol.
pub open spec fn delete_message(tx: Transaction, currency: Seq<char>) -> Seq<char> {
    "Delete this transaction?\n\n"@ + tx.source@ + "  ("@ + currency + spec_format_cents(
        tx.amount,
    ) + ")"@
}

/// What a key does in `Normal` mode: `q` quits at once (only destructive
/// mutations are confirmed), `a` opens a fresh form, `s` shows the stats,
/// the arrows move the selection within bounds, `d` opens a delete
/// confirmation bound to the selected transaction, `e` begins editing it,
/// and anything else is ignored.
pub open spec fn normal_transition(pre: App, post: App, cmd: Command, key: Key) -> bool {
    match key {
        Key::Char(c) => if c == 'q' {
            post == pre && cmd == Command::Quit
        } else if c == 'a' {
            &&& post.mode == Mode::Adding
            &&& post.editing is None
            &&& is_blank_form(post.form)
            &&& post.popup == pre.popup
            &&& browse_unchanged(pre, post)
            &&& cmd == Command::NoEffect
        } else if c == 's' {
            post == (App { mode: Mode::Stats, ..pre }) && cmd == Command::NoEffect
        } else if c == 'd' {
            if pre.transactions@.len() > 0 {
                let tx = pre.transactions@[pre.selected as int];
                &&& post.mode == Mode::Popup
                &&& (post.popup matches Some(PopupKind::Confirm { title, message, action })
                    && title@ == "Confirm Delete"@ && message@ == delete_message(
                    tx,
                    pre.currency@,
                ) && action == PopupAction::DeleteTransaction(tx.id))
                &&& post.form == pre.form
                &&& post.editing == pre.editing
                &&& browse_unchanged(pre, post)
                &&& cmd == Command::NoEffect
            } else {
                post == pre && cmd == Command::NoEffect
            }
        } else if c == 'e' {
            &&& (if pre.transactions@.len() > 0 {
                begin_edit_transition(pre, post)
            } else {
                post == pre
            })
            &&& cmd == Command::NoEffect
        } else {
            post == pre && cmd == Command::NoEffect
        },
        Key::Up => {
            &&& post.selected as int == (if pre.selected > 0 {
                pre.selected as int - 1
            } else {
                0int
            })
            &&& (post == (App { selected: post.selected, ..pre }))
            &&& cmd == Command::NoEffect
        },
        Key::Down => {
            &&& post.selected as int == (if pre.selected as int + 1 < pre.transactions@.len() {
                pre.selected as int + 1
            } else {
                pre.selected as int
            })
            &&& (post == (App { selected: post.selected, ..pre }))
            &&& cmd == Command::NoEffect
        },
        _ => post == pre && cmd == Command::NoEffect,
    }
}

/// What a key does in `Stats` mode: `Esc` or `b` goes back to browsing;
/// everything else is ignored.
pub open spec fn stats_transition(pre: App, post: App, cmd: Command, key: Key) -> bool {
    match key {
        Key::Esc => post == (App { mode: Mode::Normal, ..pre }) && cmd == Command::NoEffect,
        Key::Char(c) => if c == 'b' {
            post == (App { mode: Mode::Normal, ..pre }) && cmd == Command::NoEffect
        } else {
            post == pre && cmd == Command::NoEffect
        },
        _ => post == pre && cmd == Command::NoEffect,
    }
}

/// What a key does in `Adding` mode: `Esc` cancels and discards the form,
/// `Tab` advances the cursor, the left and right arrows toggle the kind,
/// cycle the tag, or flip the recurring flag when the cursor is on those
/// fields, text keys edit the active text field, and `Enter` submits.
pub open spec fn form_transition(pre: App, post: App, cmd: Command, key: Key) -> bool {
    match key {
        Key::Esc => {
            &&& post.mode == Mode::Normal
            &&& post.editing is None
            &&& is_blank_form(post.form)
            &&& post.popup == pre.popup
            &&& browse_unchanged(pre, post)
            &&& cmd == Command::NoEffect
        },
        Key::Tab => {
            &&& (post == (App {
                form: (crate::form::TransactionForm {
                    active: pre.form.active.spec_next(),
                    ..pre.form
                }),
                ..pre
            }))
            &&& cmd == Command::NoEffect
        },
        Key::Right => cyclic_edit(pre, post, true) && cmd == Command::NoEffect,
        Key::Left => cyclic_edit(pre, post, false) && cmd == Command::NoEffect,
        Key::Backspace => {
            &&& popped_form(pre.form, post.form)
            &&& (post == (App { form: post.form, ..pre }))
            &&& cmd == Command::NoEffect
        },
        Key::Char(c) => {
            &&& pushed_form(pre.form, post.form, c)
            &&& (post == (App { form: post.form, ..pre }))
            &&& cmd == Command::NoEffect
        },
        Key::Enter => {
            &&& submit_command(pre, cmd)
            &&& post.mode == Mode::Normal
            &&& post.editing is None
            &&& is_blank_form(post.form)
            &&& post.popup == pre.popup
            &&& browse_unchanged(pre, post)
        },
        _ => post == pre && cmd == Command::NoEffect,
    }
}

/// What the left and right arrows do in the form: on the kind field they
/// toggle it, on the tag field they cycle the index (forward on right,
/// backward on left, wrapping at the ends), on the recurring field they
/// flip it, and on any other field they do nothing.
pub open spec fn cyclic_edit(pre: App, post: App, forward: bool) -> bool {
    if pre.form.active == Field::Kind {
        post == (App {
            form: (crate::form::TransactionForm {
                kind: pre.form.kind.spec_toggled(),
                ..pre.form
            }),
            ..pre
        })
    } else if pre.form.active == Field::Tag {
        if pre.tags@.len() > 0 {
            &&& post.form.tag_index as int == (if forward {
                (pre.form.tag_index + 1) % (pre.tags@.len() as int)
            } else {
                (pre.form.tag_index + pre.tags@.len() - 1) % (pre.tags@.len() as int)
            })
            &&& (post == (App {
                form: (crate::form::TransactionForm {
                    tag_index: post.form.tag_index,
                    ..pre.form
                }),
                ..pre
            }))
        } else {
            post == pre
        }
    } else if pre.form.active == Field::Recurring {
        post == (App {
            form: (crate::form::TransactionForm { recurring: !pre.form.recurring, ..pre.form }),
            ..pre
        })
    } else {
        post == pre
    }
}

/// What a key does in `Popup` mode — the intended modality: `y` confirms
/// (running the bound action: a delete issues its command and closes the
/// popup; a quit leaves at once; an informational popup just closes), `n`
/// or `Esc` cancels and closes the popup performing nothing, and every
/// other key changes nothing at all.
pub open spec fn popup_transition(pre: App, post: App, cmd: Command, key: Key) -> bool {
    match key {
        Key::Char(c) => if c == 'y' {
            match pre.popup {
                Some(PopupKind::Confirm { action: PopupAction::DeleteTransaction(id), .. }) => {
                    popup_closed(pre, post) && cmd == Command::DeleteTransaction(id)
                },
                Some(PopupKind::Confirm { action: PopupAction::Quit, .. }) => {
                    post == pre && cmd == Command::Quit
                },
                _ => popup_closed(pre, post) && cmd == Command::NoEffect,
            }
        } else if c == 'n' {
            popup_closed(pre, post) && cmd == Command::NoEffect
        } else {
            post == pre && cmd == Command::NoEffect
        },
        Key::Esc => popup_closed(pre, post) && cmd == Command::NoEffect,
        _ => post == pre && cmd == Command::NoEffect,
    }
}

/// The popup is gone and the mode is back to `Normal`; nothing else moved.
pub open spec fn popup_closed(pre: App, post: App) -> bool {
    &&& post.mode == Mode::Normal
    &&& post.popup is None
    &&& post.form == pre.form
    &&& post.editing == pre.editing
    &&& browse_unchanged(pre, post)
}

/// Dispatch one key event to the handler for the current mode. The state
/// invariant is preserved, and the returned command is the one storage
/// mutation the event asks for.
pub fn handle_key(app: &mut App, key: Key) -> (cmd: Command)
    requires
        old(app).inv(),
    ensures
        final(app).inv(),
        old(app).mode == Mode::Normal ==> normal_transition(*old(app), *final(app), cmd, key),
        old(app).mode == Mode::Adding ==> form_transition(*old(app), *final(app), cmd, key),
        old(app).mode == Mode::Stats ==> stats_transition(*old(app), *final(app), cmd, key),
        old(app).mode == Mode::Popup ==> popup_transition(*old(app), *final(app), cmd, key),
{
    match app.mode {
        Mode::Normal => handle_normal(app, key),
        Mode::Adding => handle_form(app, key),
        Mode::Stats => handle_stats(app, key),
        Mode::Popup => handle_popup(app, key),
    }
}

/// The `Normal` mode handler.
fn handle_normal(app: &mut App, key: Key) -> (cmd: Command)
    requires
        old(app).inv(),
        old(app).mode == Mode::Normal,
    ensures
        final(app).inv(),
        normal_transition(*old(app), *final(app), cmd, key),
{
    match key {
        Key::Char(c) => {
            if c == 'q' {
                Command::Quit
            } else if c == 'a' {
                app.form.reset();
                app.editing = None;
                app.mode = Mode::Adding;
                Command::NoEffect
            } else if c == 's' {
                app.mode = Mode::Stats;
                Command::NoEffect
            } else if c == 'd' {
                if app.selected < app.transactions.len() {
                    let tx = &app.transactions[app.selected];
                    let id = tx.id;
                    let mut message = "Delete this transaction?\n\n".to_owned();
                    message.append(tx.source.as_str());
                    message.append("  (");
                    message.append(app.currency.as_str());
                    let amount_text = format_cents(tx.amount);
                    message.append(amount_text.as_str());
                    message.append(")");
                    app.open_confirm_popup(
                        "Confirm Delete",
                        message,
                        PopupAction::DeleteTransaction(id),
                    );
                }
                Command::NoEffect
            } else if c == 'e' {
                app.begin_edit_selected();
                Command::NoEffect
            } else {
                Command::NoEffect
            }
        },
        Key::Up => {
            if app.selected > 0 {
                app.selected = app.selected - 1;
            }
            Command::NoEffect
        },
        Key::Down => {
            if app.selected < app.transactions.len() && app.transactions.len() - app.selected > 1 {
                app.selected = app.selected + 1;
            }
            Command::NoEffect
        },
        _ => Command::NoEffect,
    }
}

/// The `Stats` mode handler.
fn handle_stats(app: &mut App, key: Key) -> (cmd: Command)
    requires
        old(app).inv(),
        old(app).mode == Mode::Stats,
    ensures
        final(app).inv(),
        stats_transition(*old(app), *final(app), cmd, key),
{
    match key {
        Key::Esc => {
            app.mode = Mode::Normal;
            Command::NoEffect
        },
        Key::Char(c) => {
            if c == 'b' {
                app.mode = Mode::Normal;
            }
            Command::NoEffect
        },
        _ => Command::NoEffect,
    }
}

/// The `Adding` mode handler.
fn handle_form(app: &mut App, key: Key) -> (cmd: Command)
    requires
        old(app).inv(),
        old(app).mode == Mode::Adding,
    ensures
        final(app).inv(),
        form_transition(*old(app), *final(app), cmd, key),
{
    match key {
        Key::Esc => {
            app.mode = Mode::Normal;
            app.editing = None;
            app.form.reset();
            Command::NoEffect
        },
        Key::Tab => {
            app.form.active = app.form.active.next();
            Command::NoEffect
        },
        Key::Right => {
            match app.form.active {
                Field::Kind => app.form.toggle_kind(),
                Field::Tag => {
                    if app.tags.len() > 0 {
                        let len = app.tags.len();
                        app.form.next_tag(len);
                    }
                },
                Field::Recurring => app.form.toggle_recurring(),
                _ => (),
            }
            Command::NoEffect
        },
        Key::Left => {
            match app.form.active {
                Field::Kind => app.form.toggle_kind(),
                Field::Tag => {
                    if app.tags.len() > 0 {
                        let len = app.tags.len();
                        app.form.prev_tag(len);
                    }
                },
                Field::Recurring => app.form.toggle_recurring(),
                _ => (),
            }
            Command::NoEffect
        },
        Key::Backspace => {
            app.form.pop_char();
            Command::NoEffect
        },
        Key::Char(c) => {
            app.form.push_char(c);
            Command::NoEffect
        },
        Key::Enter => {
            let cmd = app.save_transaction();
            app.form.reset();
            app.mode = Mode::Normal;
            cmd
        },
        _ => Command::NoEffect,
    }
}

/// The `Popup` mode handler.
fn handle_popup(app: &mut App, key: Key) -> (cmd: Command)
    requires
        old(app).inv(),
        old(app).mode == Mode::Popup,
    ensures
        final(app).inv(),
        popup_transition(*old(app), *final(app), cmd, key),
{
    match key {
        Key::Char(c) => {
            if c == 'y' {
                let mut cmd = Command::NoEffect;
                let mut quit = false;
                match &app.popup {
                    Some(PopupKind::Confirm { action: PopupAction::DeleteTransaction(id), .. }) => {
                        cmd = Command::DeleteTransaction(*id);
                    },
                    Some(PopupKind::Confirm { action: PopupAction::Quit, .. }) => {
                        quit = true;
                    },
                    _ => (),
                }
                if quit {
                    return Command::Quit;
                }
                app.close_popup();
                cmd
            } else if c == 'n' {
                app.close_popup();
                Command::NoEffect
            } else {
                Command::NoEffect
            }
        },
        Key::Esc => {
            app.close_popup();
            Command::NoEffect
        },
        _ => Command::NoEffect,
    }
}

} // verus!
