use vstd::prelude::*;

use crate::date::{date_le, Date};
use crate::error::DomainError;
use crate::text::{blank, is_blank};

verus! {

/// The identifier that storage assigns to an entry.
#[derive(Debug, Clone, Copy, PartialEq, Eq, Structural, PartialOrd, Ord, Hash)]
pub struct EntryId(pub i64);

/// Whether an entry takes money out or brings it in.
#[derive(Debug, Clone, Copy, PartialEq, Eq, Structural)]
pub enum EntryKind {
    Expense,
    Income,
}

/// A category name that is not blank.
#[derive(Debug, PartialEq, Eq)]
pub struct Category(String);

impl View for Category {
    type V = Seq<char>;

    closed spec fn view(&self) -> Seq<char> {
        self.0@
    }
}

impl Category {
    #[verifier::type_invariant]
    spec fn not_blank(self) -> bool {
        !is_blank(self.0@)
    }

    /// The category named `name`; `InvalidData` when `name` is blank.
    pub fn new(name: &str) -> (r: Result<Category, DomainError>)
        ensures
            is_blank(name@) <==> r is Err,
            r matches Ok(c) ==> c@ == name@,
            r matches Err(e) ==> e is InvalidData,
    {
        if blank(name) {
            return Err(DomainError::InvalidData(String::from_str("Category cannot be empty")));
        }
        Ok(Category(String::from_str(name)))
    }

    /// The category's name.
    pub fn as_str(&self) -> (r: &str)
        ensures
            r@ == self@,
    {
        self.0.as_str()
    }
}


/// The contents of an entry apart from its identifier, as plain values.
pub struct EntryRecord {
    pub kind: EntryKind,
    pub amount_cents: i64,
    pub category: Seq<char>,
    pub note: Option<Seq<char>>,
    pub occurred_on: Date,
}

/// The view of an optional text.
pub open spec fn opt_view(o: Option<String>) -> Option<Seq<char>> {
    match o {
        Some(s) => Some(s@),
        None => None,
    }
}

/// An entry that is still to be stored.
#[derive(Debug, Clone, PartialEq, Eq)]
pub struct NewEntry {
    pub kind: EntryKind,
    pub amount_cents: i64,
    pub category: String,
    pub note: Option<String>,
    pub occurred_on: Date,
}

impl View for NewEntry {
    type V = EntryRecord;

    open spec fn view(&self) -> EntryRecord {
        EntryRecord {
            kind: self.kind,
            amount_cents: self.amount_cents,
            category: self.category@,
            note: opt_view(self.note),
            occurred_on: self.occurred_on,
        }
    }
}

/// A record may be stored: its amount is positive and its category is not blank.
pub open spec fn record_is_valid(r: EntryRecord) -> bool {
    r.amount_cents > 0 && !is_blank(r.category)
}

fn copy_note(note: &Option<String>) -> (r: Option<String>)
    ensures
        opt_view(r) == opt_view(*note),
{
    match note {
        Some(s) => Some(s.clone()),
        None => None,
    }
}

impl NewEntry {
    /// Checks the record before it reaches storage: `InvalidData` unless the
    /// amount is positive and the category is not blank.
    pub fn validate(&self) -> (r: Result<(), DomainError>)
        ensures
            r is Ok <==> record_is_valid(self@),
            r matches Err(e) ==> e is InvalidData,
    {
        if self.amount_cents <= 0 {
            return Err(DomainError::InvalidData(String::from_str("amount must be greater than zero")));
        }
        if blank(self.category.as_str()) {
            return Err(DomainError::InvalidData(String::from_str("category must not be empty")));
        }
        Ok(())
    }
}

/// A stored entry: the record and the identifier that storage gave it.
#[derive(Debug, Clone, PartialEq, Eq)]
pub struct Entry {
    pub id: EntryId,
    pub kind: EntryKind,
    pub amount_cents: i64,
    pub category: String,
    pub note: Option<String>,
    pub occurred_on: Date,
}

impl View for Entry {
    type V = (i64, EntryRecord);

    open spec fn view(&self) -> (i64, EntryRecord) {
        (
            self.id.0,
            EntryRecord {
                kind: self.kind,
                amount_cents: self.amount_cents,
                category: self.category@,
                note: opt_view(self.note),
                occurred_on: self.occurred_on,
            },
        )
    }
}

impl Entry {
    /// The entry that storing `record` under `id` gives.
    pub fn from_new(id: EntryId, record: NewEntry) -> (r: Entry)
        ensures
            r@ == (id.0, record@),
    {
        Entry {
            id,
            kind: record.kind,
            amount_cents: record.amount_cents,
            category: record.category,
            note: record.note,
            occurred_on: record.occurred_on,
        }
    }

    /// A copy of this entry.
    pub fn duplicate(&self) -> (r: Entry)
        ensures
            r@ == self@,
    {
        Entry {
            id: self.id,
            kind: self.kind,
            amount_cents: self.amount_cents,
            category: self.category.clone(),
            note: copy_note(&self.note),
            occurred_on: self.occurred_on,
        }
    }
}

/// The constraints of a query, as plain values.
pub struct FilterView {
    pub from: Option<Date>,
    pub to: Option<Date>,
    pub category: Option<Seq<char>>,
}

/// Which entries a query asks for; an absent field constrains nothing.
#[derive(Debug, Clone)]
pub struct EntryFilter {
    /// Earliest date, inclusive.
    pub from: Option<Date>,
    /// Latest date, inclusive.
    pub to: Option<Date>,
    /// Exact category name.
    pub category: Option<String>,
}

impl View for EntryFilter {
    type V = FilterView;

    open spec fn view(&self) -> FilterView {
        FilterView { from: self.from, to: self.to, category: opt_view(self.category) }
    }
}

impl Default for EntryFilter {
    fn default() -> (r: EntryFilter)
        ensures
            r.from is None,
            r.to is None,
            r.category is None,
    {
        EntryFilter { from: None, to: None, category: None }
    }
}

/// Whether the query `f` asks for an entry with the contents `r`: its date
/// lies within the bounds (both inclusive) and its category is the one named.
pub open spec fn filter_accepts(f: FilterView, r: EntryRecord) -> bool {
    &&& (f.from matches Some(d) ==> date_le(d, r.occurred_on))
    &&& (f.to matches Some(d) ==> date_le(r.occurred_on, d))
    &&& (f.category matches Some(c) ==> r.category == c)
}

impl EntryFilter {
    /// Whether this query asks for `entry`.
    pub fn accepts(&self, entry: &Entry) -> (r: bool)
        ensures
            r == filter_accepts(self@, entry@.1),
    {
        if let Some(d) = &self.from {
            if !d.le(&entry.occurred_on) {
                return false;
            }
        }
        if let Some(d) = &self.to {
            if !entry.occurred_on.le(d) {
                return false;
            }
        }
        if let Some(c) = &self.category {
            if !(*c == entry.category) {
                return false;
            }
        }
        true
    }
}

/// A registered user; no password material.
#[derive(Debug, Clone, PartialEq, Eq)]
pub struct User {
    pub id: i64,
    pub username: String,
}

} // verus!
