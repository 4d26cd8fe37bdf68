use fitui::form::{Field, TransactionForm};
use fitui::models::{Tag, TransactionType};

#[test]
fn tag_cycle_wraps_forward() {
    // Three-element vocabulary: cycling forward from the last index
    // yields the first.
    let mut form = TransactionForm::new();
    form.tag_index = 2;
    form.next_tag(3);
    assert_eq!(form.tag_index, 0);
}

#[test]
fn tag_cycle_wraps_backward() {
    // Cycling backward from the first index yields the last.
    let mut form = TransactionForm::new();
    form.tag_index = 0;
    form.prev_tag(3);
    assert_eq!(form.tag_index, 2);
}

#[test]
fn tag_cycle_steps_without_wrap() {
    let mut form = TransactionForm::new();
    form.tag_index = 0;
    form.next_tag(3);
    assert_eq!(form.tag_index, 1);
    form.prev_tag(3);
    assert_eq!(form.tag_index, 0);
}

#[test]
fn kind_toggle_is_involution() {
    // Toggling Credit twice returns Credit.
    let k = TransactionType::Credit;
    assert_eq!(k.toggled().toggled(), TransactionType::Credit);
    assert_eq!(TransactionType::Debit.toggled().toggled(), TransactionType::Debit);
}

#[test]
fn kind_toggle_flips() {
    assert_eq!(TransactionType::Credit.toggled(), TransactionType::Debit);
    assert_eq!(TransactionType::Debit.toggled(), TransactionType::Credit);
}

#[test]
fn field_cycle_order() {
    let order = [
        Field::Source,
        Field::Amount,
        Field::Kind,
        Field::Tag,
        Field::Date,
        Field::Recurring,
        Field::Source,
    ];
    for w in order.windows(2) {
        assert_eq!(w[0].next(), w[1]);
    }
}

#[test]
fn text_fields_append_and_remove() {
    let mut form = TransactionForm::new();
    form.push_char('a');
    form.push_char('b');
    assert_eq!(form.source, "ab");
    form.active = Field::Amount;
    form.push_char('7');
    assert_eq!(form.amount, "7");
    assert_eq!(form.source, "ab");
    form.pop_char();
    assert_eq!(form.amount, "");
    // Popping an empty field is a no-op.
    form.pop_char();
    assert_eq!(form.amount, "");
    // Non-text fields ignore character edits.
    form.active = Field::Kind;
    form.push_char('x');
    assert_eq!(form.source, "ab");
    assert_eq!(form.amount, "");
    assert_eq!(form.date, "");
}

#[test]
fn reset_restores_defaults() {
    let mut form = TransactionForm::new();
    form.push_char('z');
    form.active = Field::Tag;
    form.tag_index = 2;
    form.recurring = true;
    form.kind = TransactionType::Credit;
    form.reset();
    assert_eq!(form.source, "");
    assert_eq!(form.amount, "");
    assert_eq!(form.date, "");
    assert_eq!(form.kind, TransactionType::Debit);
    assert_eq!(form.tag_index, 0);
    assert!(!form.recurring);
    assert_eq!(form.active, Field::Source);
}

#[test]
fn tag_normalizes_ascii_letters() {
    let t = Tag::from_str("FoOd");
    assert_eq!(t.as_str(), "food");
    let u = Tag::from_str("food");
    assert_eq!(t.as_str(), u.as_str());
}
