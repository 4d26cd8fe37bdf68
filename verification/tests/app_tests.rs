use fitui::app::{App, Command, Mode, PopupAction, PopupKind};
use fitui::form::Field;
use fitui::handlers::{handle_key, Key};
use fitui::models::{Tag, Transaction, TransactionType};

fn vocab() -> Vec<String> {
    vec!["food".to_string(), "travel".to_string(), "other".to_string()]
}

fn tx(id: i32, kind: TransactionType, cents: u64, tag: &str) -> Transaction {
    Transaction {
        id,
        source: format!("src{}", id),
        amount: cents,
        kind,
        tag: Tag::from_str(tag),
        date: "2025-06-01".to_string(),
    }
}

fn app_with(txs: Vec<Transaction>) -> App {
    App::new("$".to_string(), &vocab(), txs, Vec::new())
}

#[test]
fn new_app_starts_browsing() {
    let app = app_with(Vec::new());
    assert_eq!(app.mode, Mode::Normal);
    assert_eq!(app.selected, 0);
    assert!(app.editing.is_none());
    assert!(app.popup.is_none());
    assert_eq!(app.tags.len(), 3);
    assert_eq!(app.tags[0].as_str(), "food");
}

#[test]
fn vocabulary_labels_are_normalized() {
    let app = App::new(
        "$".to_string(),
        &vec!["FOOD".to_string(), "Travel".to_string()],
        Vec::new(),
        Vec::new(),
    );
    assert_eq!(app.tags[0].as_str(), "food");
    assert_eq!(app.tags[1].as_str(), "travel");
}

#[test]
fn selection_clamps_on_shrink() {
    // With the selection on the last row, deleting that row moves the
    // selection up by one; it reaches zero, never below, when the list
    // empties.
    let mut app = app_with(vec![
        tx(1, TransactionType::Debit, 100, "food"),
        tx(2, TransactionType::Debit, 200, "food"),
        tx(3, TransactionType::Debit, 300, "food"),
    ]);
    app.selected = 2;
    app.refresh(
        vec![
            tx(1, TransactionType::Debit, 100, "food"),
            tx(2, TransactionType::Debit, 200, "food"),
        ],
        Vec::new(),
    );
    assert_eq!(app.selected, 1);
    app.refresh(vec![tx(1, TransactionType::Debit, 100, "food")], Vec::new());
    assert_eq!(app.selected, 0);
    app.refresh(Vec::new(), Vec::new());
    assert_eq!(app.selected, 0);
}

#[test]
fn navigation_stays_in_bounds() {
    let mut app = app_with(vec![
        tx(1, TransactionType::Debit, 100, "food"),
        tx(2, TransactionType::Debit, 200, "food"),
    ]);
    assert!(matches!(handle_key(&mut app, Key::Up), Command::NoEffect));
    assert_eq!(app.selected, 0);
    handle_key(&mut app, Key::Down);
    assert_eq!(app.selected, 1);
    handle_key(&mut app, Key::Down);
    assert_eq!(app.selected, 1);
    handle_key(&mut app, Key::Up);
    assert_eq!(app.selected, 0);
}

#[test]
fn quit_from_normal_is_immediate() {
    let mut app = app_with(Vec::new());
    let cmd = handle_key(&mut app, Key::Char('q'));
    assert!(matches!(cmd, Command::Quit));
    assert_eq!(app.mode, Mode::Normal);
}

#[test]
fn add_opens_fresh_form() {
    let mut app = app_with(Vec::new());
    app.form.recurring = true;
    let cmd = handle_key(&mut app, Key::Char('a'));
    assert!(matches!(cmd, Command::NoEffect));
    assert_eq!(app.mode, Mode::Adding);
    assert!(app.editing.is_none());
    assert_eq!(app.form.source, "");
    assert!(!app.form.recurring);
    assert_eq!(app.form.active, Field::Source);
}

#[test]
fn stats_and_back() {
    let mut app = app_with(Vec::new());
    handle_key(&mut app, Key::Char('s'));
    assert_eq!(app.mode, Mode::Stats);
    handle_key(&mut app, Key::Char('x'));
    assert_eq!(app.mode, Mode::Stats);
    handle_key(&mut app, Key::Esc);
    assert_eq!(app.mode, Mode::Normal);
}

#[test]
fn delete_asks_for_confirmation() {
    let mut app = app_with(vec![tx(7, TransactionType::Debit, 4200, "food")]);
    let cmd = handle_key(&mut app, Key::Char('d'));
    assert!(matches!(cmd, Command::NoEffect));
    assert_eq!(app.mode, Mode::Popup);
    match &app.popup {
        Some(PopupKind::Confirm { title, message, action }) => {
            assert_eq!(title, "Confirm Delete");
            assert_eq!(message, "Delete this transaction?\n\nsrc7  ($42.00)");
            assert!(matches!(*action, PopupAction::DeleteTransaction(7)));
        }
        other => panic!("expected a confirmation popup, got {:?}", other),
    }
}

#[test]
fn delete_on_empty_list_is_ignored() {
    let mut app = app_with(Vec::new());
    let cmd = handle_key(&mut app, Key::Char('d'));
    assert!(matches!(cmd, Command::NoEffect));
    assert_eq!(app.mode, Mode::Normal);
    assert!(app.popup.is_none());
}

#[test]
fn confirming_delete_issues_the_command_and_closes() {
    let mut app = app_with(vec![tx(7, TransactionType::Debit, 4200, "food")]);
    handle_key(&mut app, Key::Char('d'));
    let cmd = handle_key(&mut app, Key::Char('y'));
    assert!(matches!(cmd, Command::DeleteTransaction(7)));
    assert_eq!(app.mode, Mode::Normal);
    assert!(app.popup.is_none());
}

#[test]
fn cancelling_delete_does_nothing() {
    let mut app = app_with(vec![tx(7, TransactionType::Debit, 4200, "food")]);
    handle_key(&mut app, Key::Char('d'));
    let cmd = handle_key(&mut app, Key::Char('n'));
    assert!(matches!(cmd, Command::NoEffect));
    assert_eq!(app.mode, Mode::Normal);
    assert!(app.popup.is_none());
    assert_eq!(app.transactions.len(), 1);
}

#[test]
fn popup_is_modal() {
    // While a popup is pending, only confirm and cancel change state;
    // every other input is a no-op.
    let mut app = app_with(vec![tx(7, TransactionType::Debit, 4200, "food")]);
    handle_key(&mut app, Key::Char('d'));
    for key in [
        Key::Char('a'),
        Key::Char('d'),
        Key::Char('e'),
        Key::Char('q'),
        Key::Char('s'),
        Key::Up,
        Key::Down,
        Key::Left,
        Key::Right,
        Key::Tab,
        Key::Enter,
        Key::Backspace,
        Key::Other,
    ] {
        let cmd = handle_key(&mut app, key);
        assert!(matches!(cmd, Command::NoEffect));
        assert_eq!(app.mode, Mode::Popup);
        assert!(matches!(app.popup, Some(PopupKind::Confirm { .. })));
        assert_eq!(app.selected, 0);
    }
    let cmd = handle_key(&mut app, Key::Esc);
    assert!(matches!(cmd, Command::NoEffect));
    assert_eq!(app.mode, Mode::Normal);
}

#[test]
fn info_popup_closes_on_confirm_too() {
    let mut app = app_with(Vec::new());
    app.open_info_popup("Note", "message".to_string());
    assert_eq!(app.mode, Mode::Popup);
    let cmd = handle_key(&mut app, Key::Char('y'));
    assert!(matches!(cmd, Command::NoEffect));
    assert_eq!(app.mode, Mode::Normal);
    assert!(app.popup.is_none());
}

#[test]
fn submit_falls_back_on_unparsable_amount() {
    // Amount text "abc" persists amount 0.
    let mut app = app_with(Vec::new());
    handle_key(&mut app, Key::Char('a'));
    for c in ['p', 'a', 'y'] {
        handle_key(&mut app, Key::Char(c));
    }
    handle_key(&mut app, Key::Tab);
    for c in ['a', 'b', 'c'] {
        handle_key(&mut app, Key::Char(c));
    }
    let cmd = handle_key(&mut app, Key::Enter);
    match cmd {
        Command::SaveNew { draft, recurring } => {
            assert_eq!(draft.source, "pay");
            assert_eq!(draft.amount, 0);
            assert_eq!(draft.tag.as_str(), "food");
            assert!(!recurring);
        }
        other => panic!("expected a create, got {:?}", other),
    }
    assert_eq!(app.mode, Mode::Normal);
    assert_eq!(app.form.source, "");
}

#[test]
fn submit_falls_back_on_out_of_range_tag() {
    // A tag index beyond the vocabulary persists the reserved "other" tag.
    let mut app = app_with(Vec::new());
    handle_key(&mut app, Key::Char('a'));
    app.form.tag_index = 17;
    let cmd = handle_key(&mut app, Key::Enter);
    match cmd {
        Command::SaveNew { draft, .. } => {
            assert_eq!(draft.tag.as_str(), "other");
            assert_eq!(draft.amount, 0);
        }
        other => panic!("expected a create, got {:?}", other),
    }
}

#[test]
fn submit_with_recurring_flag_requests_template() {
    let mut app = app_with(Vec::new());
    handle_key(&mut app, Key::Char('a'));
    // Move the cursor to the recurring field and flip it.
    for _ in 0..5 {
        handle_key(&mut app, Key::Tab);
    }
    assert_eq!(app.form.active, Field::Recurring);
    handle_key(&mut app, Key::Right);
    assert!(app.form.recurring);
    let cmd = handle_key(&mut app, Key::Enter);
    match cmd {
        Command::SaveNew { recurring, .. } => assert!(recurring),
        other => panic!("expected a create, got {:?}", other),
    }
}

#[test]
fn form_arrows_toggle_kind_and_cycle_tags() {
    let mut app = app_with(Vec::new());
    handle_key(&mut app, Key::Char('a'));
    handle_key(&mut app, Key::Tab);
    handle_key(&mut app, Key::Tab);
    assert_eq!(app.form.active, Field::Kind);
    assert_eq!(app.form.kind, TransactionType::Debit);
    handle_key(&mut app, Key::Left);
    assert_eq!(app.form.kind, TransactionType::Credit);
    handle_key(&mut app, Key::Right);
    assert_eq!(app.form.kind, TransactionType::Debit);
    handle_key(&mut app, Key::Tab);
    assert_eq!(app.form.active, Field::Tag);
    handle_key(&mut app, Key::Left);
    assert_eq!(app.form.tag_index, 2);
    handle_key(&mut app, Key::Right);
    assert_eq!(app.form.tag_index, 0);
}

#[test]
fn cancel_discards_edits() {
    let mut app = app_with(vec![tx(3, TransactionType::Debit, 100, "food")]);
    handle_key(&mut app, Key::Char('e'));
    assert_eq!(app.mode, Mode::Adding);
    assert_eq!(app.editing, Some(3));
    let cmd = handle_key(&mut app, Key::Esc);
    assert!(matches!(cmd, Command::NoEffect));
    assert_eq!(app.mode, Mode::Normal);
    assert!(app.editing.is_none());
    assert_eq!(app.form.source, "");
}

#[test]
fn edit_prefills_the_form() {
    let mut app = app_with(vec![
        tx(1, TransactionType::Debit, 100, "food"),
        tx(2, TransactionType::Credit, 123456, "travel"),
    ]);
    app.selected = 1;
    handle_key(&mut app, Key::Char('e'));
    assert_eq!(app.mode, Mode::Adding);
    assert_eq!(app.editing, Some(2));
    assert_eq!(app.form.source, "src2");
    assert_eq!(app.form.amount, "1234.56");
    assert_eq!(app.form.kind, TransactionType::Credit);
    assert_eq!(app.form.tag_index, 1);
    assert_eq!(app.form.date, "2025-06-01");
    assert_eq!(app.form.active, Field::Source);
}

#[test]
fn edit_with_unknown_tag_falls_back_to_first() {
    let mut app = app_with(vec![tx(1, TransactionType::Debit, 100, "misc")]);
    handle_key(&mut app, Key::Char('e'));
    assert_eq!(app.form.tag_index, 0);
}

#[test]
fn edit_on_empty_list_is_ignored() {
    let mut app = app_with(Vec::new());
    let cmd = handle_key(&mut app, Key::Char('e'));
    assert!(matches!(cmd, Command::NoEffect));
    assert_eq!(app.mode, Mode::Normal);
    assert!(app.editing.is_none());
}

#[test]
fn edit_round_trip_preserves_every_field() {
    // Selecting a transaction, entering the form via edit and submitting
    // without changes asks for an update carrying exactly the fields the
    // transaction already has.
    let original = tx(9, TransactionType::Credit, 123456, "travel");
    let mut app = app_with(vec![original.clone()]);
    handle_key(&mut app, Key::Char('e'));
    let cmd = handle_key(&mut app, Key::Enter);
    match cmd {
        Command::SaveEdit { id, draft } => {
            assert_eq!(id, original.id);
            assert_eq!(draft.source, original.source);
            assert_eq!(draft.amount, original.amount);
            assert_eq!(draft.kind, original.kind);
            assert_eq!(draft.tag.as_str(), original.tag.as_str());
            assert_eq!(draft.date, original.date);
        }
        other => panic!("expected an update, got {:?}", other),
    }
    assert!(app.editing.is_none());
    assert_eq!(app.mode, Mode::Normal);
}

#[test]
fn selected_transaction_is_safe_on_empty_list() {
    let app = app_with(Vec::new());
    assert!(app.selected_transaction().is_none());
    assert!(app.delete_selected().is_none());
}

#[test]
fn delete_selected_names_the_selected_id() {
    let mut app = app_with(vec![
        tx(4, TransactionType::Debit, 100, "food"),
        tx(5, TransactionType::Debit, 200, "food"),
    ]);
    app.selected = 1;
    assert_eq!(app.delete_selected(), Some(5));
    assert_eq!(app.selected_transaction().unwrap().id, 5);
}
