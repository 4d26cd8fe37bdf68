//! Data model of the ledger: transaction kinds, normalized tags, and the
//! transaction / recurring-entry records held in the in-memory snapshot.
//!
//! Amounts are held as a fixed-point count of hundredths of the currency
//! unit, so that arithmetic on them is exact.

use vstd::prelude::*;

verus! {

/// Whether a record adds to the balance (`Credit`) or draws from it (`Debit`).
#[derive(Clone, Copy, PartialEq, Eq, Structural, Debug)]
pub enum TransactionType {
    Credit,
    Debit,
}

impl TransactionType {
    /// The other of the two kinds.
    pub open spec fn spec_toggled(self) -> TransactionType {
        match self {
            TransactionType::Credit => TransactionType::Debit,
            TransactionType::Debit => TransactionType::Credit,
        }
    }

    /// Flip between `Credit` and `Debit`.
    pub fn toggled(self) -> (r: TransactionType)
        ensures
            r == self.spec_toggled(),
    {
        match self {
            TransactionType::Credit => TransactionType::Debit,
            TransactionType::Debit => TransactionType::Credit,
        }
    }

    /// The storage label of this kind.
    pub open spec fn spec_label(self) -> Seq<char> {
        match self {
            TransactionType::Credit => "credit"@,
            TransactionType::Debit => "debit"@,
        }
    }

    /// Storage label: `"credit"` or `"debit"`.
    pub fn as_str(self) -> (r: &'static str)
        ensures
            r@ == self.spec_label(),
    {
        match self {
            TransactionType::Credit => "credit",
            TransactionType::Debit => "debit",
        }
    }

    /// The kind a storage label denotes: `"credit"` maps to `Credit`,
    /// anything else to `Debit`.
    pub open spec fn spec_from_chars(s: Seq<char>) -> TransactionType {
        if s == "credit"@ {
            TransactionType::Credit
        } else {
            TransactionType::Debit
        }
    }

    /// Parse a storage label; any label other than `"credit"` is `Debit`.
    pub fn from_str(s: &str) -> (r: TransactionType)
        ensures
            r == TransactionType::spec_from_chars(s@),
    {
        if str_eq(s, "credit") {
            TransactionType::Credit
        } else {
            TransactionType::Debit
        }
    }
}

/// Toggling a kind twice returns the kind it started from.
pub proof fn lemma_toggle_involution(k: TransactionType)
    ensures
        k.spec_toggled().spec_toggled() == k,
{
}

/// Character-wise equality of two string slices.
pub fn str_eq(a: &str, b: &str) -> (r: bool)
    ensures
        r == (a@ == b@),
{
    let a_len = a.unicode_len();
    let b_len = b.unicode_len();
    if a_len != b_len {
        assert(a@ != b@) by {
            assert(a@.len() != b@.len());
        }
        return false;
    }
    let mut i: usize = 0;
    while i < a_len
        invariant
            i <= a_len,
            a_len == a@.len(),
            a_len == b@.len(),
            forall|j: int| 0 <= j < i ==> a@[j] == b@[j],
        decreases a_len - i,
    {
        if a.get_char(i) != b.get_char(i) {
            return false;
        }
        i += 1;
    }
    proof {
        assert(a@ =~= b@);
    }
    true
}

/// The lowercase form of an ASCII letter; any other character is unchanged.
pub open spec fn lower_char(c: char) -> char {
    if 'A' <= c && c <= 'Z' {
        (((c as u8) + 32) as char)
    } else {
        c
    }
}

/// A label with every ASCII letter lowercased.
pub open spec fn normalized(s: Seq<char>) -> Seq<char> {
    s.map_values(|c: char| lower_char(c))
}

/// A category label. Equality of tags is equality of their normalized
/// (ASCII-lowercased) labels; [`Tag::from_str`] establishes the normal form,
/// so two tags built from it agree exactly when their labels do.
#[derive(Clone, Debug)]
pub struct Tag(pub String);

impl Tag {
    /// The label held by this tag.
    pub open spec fn label(self) -> Seq<char> {
        self.0@
    }

    /// A tag is well formed when its label is in normal form.
    pub open spec fn wf(self) -> bool {
        self.label() == normalized(self.label())
    }

    /// Build a tag from a label, normalizing it.
    pub fn from_str(s: &str) -> (r: Tag)
        ensures
            r.label() == normalized(s@),
            r.wf(),
    {
        let n = s.unicode_len();
        let mut out = String::new();
        let mut i: usize = 0;
        while i < n
            invariant
                i <= n,
                n == s@.len(),
                out@ =~= normalized(s@).subrange(0, i as int),
            decreases n - i,
        {
            let c = s.get_char(i);
            let lc: char = if 'A' <= c && c <= 'Z' {
                ((c as u8) + 32) as char
            } else {
                c
            };
            out.push(lc);
            proof {
                assert(out@ =~= normalized(s@).subrange(0, i as int + 1));
            }
            i += 1;
        }
        proof {
            assert(out@ =~= normalized(s@));
            assert(normalized(normalized(s@)) =~= normalized(s@));
        }
        Tag(out)
    }

    /// The label as a string slice.
    pub fn as_str(&self) -> (r: &str)
        ensures
            r@ == self.label(),
    {
        self.0.as_str()
    }
}

/// A single dated credit or debit record of the ledger.
#[derive(Clone, Debug)]
pub struct Transaction {
    /// Store-assigned identity, unique and immutable once created.
    pub id: i32,
    /// Free-text label of where the money came from or went.
    pub source: String,
    /// Amount in hundredths of the currency unit.
    pub amount: u64,
    /// Credit or debit.
    pub kind: TransactionType,
    /// Category label.
    pub tag: Tag,
    /// Calendar date in ISO form, `YYYY-MM-DD`.
    pub date: String,
}

/// A template that materializes into one transaction per calendar month
/// while active.
#[derive(Clone, Debug)]
pub struct RecurringEntry {
    /// Store-assigned identity.
    pub id: i32,
    /// Free-text label copied into each materialized transaction.
    pub source: String,
    /// Amount in hundredths of the currency unit.
    pub amount: u64,
    /// Credit or debit.
    pub kind: TransactionType,
    /// Category label.
    pub tag: Tag,
    /// Month stamp (`YYYY-MM`) of the last materialization; empty means
    /// never materialized.
    pub last_inserted_month: String,
    /// Inactive entries are never materialized.
    pub active: bool,
}

/// The fields of a transaction before the store has assigned it an
/// identity: what a submit or a materialization asks the store to persist.
#[derive(Clone, Debug)]
pub struct TransactionDraft {
    /// Free-text label.
    pub source: String,
    /// Amount in hundredths of the currency unit.
    pub amount: u64,
    /// Credit or debit.
    pub kind: TransactionType,
    /// Category label.
    pub tag: Tag,
    /// Calendar date in ISO form.
    pub date: String,
}

/// The draft holds exactly the fields of the transaction.
pub open spec fn draft_matches_transaction(d: TransactionDraft, t: Transaction) -> bool {
    &&& d.source@ == t.source@
    &&& d.amount == t.amount
    &&& d.kind == t.kind
    &&& d.tag.label() == t.tag.label()
    &&& d.date@ == t.date@
}

} // verus!
