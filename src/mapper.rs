use vstd::prelude::*;

use crate::date::{chrono_parse_ymd, chrono_parsed_ymd, date_from_parts, date_of_parts, Date};
use crate::error::DomainError;
use crate::models::{opt_view, Category, Entry, EntryId, EntryKind, EntryRecord};
use crate::text::is_blank;

verus! {

/// The stored tag of an entry kind.
pub open spec fn kind_text(kind: EntryKind) -> Seq<char> {
    match kind {
        EntryKind::Expense => "expense"@,
        EntryKind::Income => "income"@,
    }
}

/// The entry kind that a stored tag names, if any.
pub open spec fn kind_of_text(s: Seq<char>) -> Option<EntryKind> {
    if s == "expense"@ {
        Some(EntryKind::Expense)
    } else if s == "income"@ {
        Some(EntryKind::Income)
    } else {
        None
    }
}

/// The stored tag of `kind`.
pub fn kind_to_str(kind: EntryKind) -> (r: &'static str)
    ensures
        r@ == kind_text(kind),
{
    match kind {
        EntryKind::Expense => "expense",
        EntryKind::Income => "income",
    }
}

/// The entry kind of a stored tag; `InvalidData` for any other text.
pub fn kind_from_str(value: String) -> (r: Result<EntryKind, DomainError>)
    ensures
        kind_of_text(value@) matches Some(k) ==> r == Ok::<EntryKind, DomainError>(k),
        kind_of_text(value@) is None ==> (r matches Err(e) && e is InvalidData),
{
    if value == String::from_str("expense") {
        Ok(EntryKind::Expense)
    } else if value == String::from_str("income") {
        Ok(EntryKind::Income)
    } else {
        Err(DomainError::InvalidData(String::from_str("unknown entry kind: ").concat(value.as_str())))
    }
}

/// A stored row of the entries table, as the storage engine hands it back.
#[derive(Debug, Clone)]
pub struct EntryRow {
    pub id: i64,
    pub kind: String,
    pub amount_cents: i64,
    pub category: String,
    pub note: Option<String>,
    pub occurred_on: String,
}

/// The entry that a row decodes to, given the date read from its date text;
/// `None` when the kind tag is unknown, the category blank or the date absent.
pub open spec fn decoded_entry(row: EntryRow, date: Option<Date>) -> Option<(i64, EntryRecord)> {
    match (kind_of_text(row.kind@), date) {
        (Some(kind), Some(d)) => if is_blank(row.category@) {
            None
        } else {
            Some(
                (
                    row.id,
                    EntryRecord {
                        kind,
                        amount_cents: row.amount_cents,
                        category: row.category@,
                        note: opt_view(row.note),
                        occurred_on: d,
                    },
                ),
            )
        },
        _ => None,
    }
}

/// Decodes a row whose date text chrono read as `parsed_date`: the entry that
/// `decoded_entry` gives, or `InvalidData`.
pub fn decode_entry_with_date(row: EntryRow, parsed_date: Option<(i32, u32, u32)>) -> (r: Result<
    Entry,
    DomainError,
>)
    ensures
        decoded_entry(row, date_of_parts(parsed_date)) matches Some(v) ==> (r matches Ok(e) && e@
            == v),
        decoded_entry(row, date_of_parts(parsed_date)) is None ==> (r matches Err(e)
            && e is InvalidData),
{
    let kind = match kind_from_str(row.kind) {
        Ok(k) => k,
        Err(e) => return Err(e),
    };
    if let Err(e) = Category::new(row.category.as_str()) {
        return Err(e);
    }
    let occurred_on = match date_from_parts(parsed_date) {
        Some(d) => d,
        None => {
            return Err(
                DomainError::InvalidData(
                    String::from_str("unparsable date: ").concat(row.occurred_on.as_str()),
                ),
            );
        },
    };
    Ok(
        Entry {
            id: EntryId(row.id),
            kind,
            amount_cents: row.amount_cents,
            category: row.category,
            note: row.note,
            occurred_on,
        },
    )
}

/// Decodes a stored row into an entry: `InvalidData` for an unknown kind tag,
/// a blank category or a date text that is not `YYYY-MM-DD`.
pub fn decode_entry(row: EntryRow) -> (r: Result<Entry, DomainError>)
    ensures
        decoded_entry(row, date_of_parts(chrono_parsed_ymd(row.occurred_on@))) matches Some(v)
            ==> (r matches Ok(e) && e@ == v),
        decoded_entry(row, date_of_parts(chrono_parsed_ymd(row.occurred_on@))) is None
            ==> (r matches Err(e) && e is InvalidData),
{
    let parsed = chrono_parse_ymd(row.occurred_on.as_str());
    decode_entry_with_date(row, parsed)
}

/// Ten to the power `e`.
pub open spec fn pow10(e: nat) -> int
    decreases e,
{
    if e == 0 { 1 } else { 10 * pow10((e - 1) as nat) }
}

/// The whole number of cents in the decimal amount `mantissa / 10^scale`
/// (at most two decimal places); `None` when it does not fit in an `i64`.
pub fn cents_from_decimal(mantissa: i128, scale: u32) -> (r: Option<i64>)
    requires
        scale <= 2,
    ensures
        ({
            let c = mantissa * pow10((2 - scale) as nat);
            if i64::MIN <= c <= i64::MAX { r == Some(c as i64) } else { r is None }
        }),
{
    assert(pow10(0) == 1 && pow10(1) == 10 && pow10(2) == 100) by {
        reveal_with_fuel(pow10, 3);
    }
    let factor: i128 = if scale == 0 { 100 } else if scale == 1 { 10 } else { 1 };
    if mantissa > i64::MAX as i128 || mantissa < i64::MIN as i128 {
        return None;
    }
    let c = mantissa * factor;
    if c > i64::MAX as i128 || c < i64::MIN as i128 {
        None
    } else {
        Some(c as i64)
    }
}

} // verus!
