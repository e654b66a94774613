use ledger_store::date::Date;
use ledger_store::error::DomainError;
use ledger_store::models::{Category, EntryKind, NewEntry};
use ledger_store::text::blank;

#[test]
fn validate_rejects_non_positive_amounts() {
    let entry = NewEntry {
        kind: EntryKind::Expense,
        amount_cents: 0,
        category: "food".to_string(),
        note: None,
        occurred_on: Date::from_ymd_opt(2024, 2, 1).expect("date"),
    };

    let err = entry.validate().expect_err("expected invalid amount");
    assert!(matches!(err, DomainError::InvalidData(_)));
}

#[test]
fn validate_rejects_empty_category() {
    let entry = NewEntry {
        kind: EntryKind::Income,
        amount_cents: 100,
        category: "   ".to_string(),
        note: None,
        occurred_on: Date::from_ymd_opt(2024, 2, 1).expect("date"),
    };

    let err = entry.validate().expect_err("expected invalid category");
    assert!(matches!(err, DomainError::InvalidData(_)));
}

#[test]
fn validate_accepts_valid_entry() {
    let entry = NewEntry {
        kind: EntryKind::Expense,
        amount_cents: 2500,
        category: "transport".to_string(),
        note: Some("bus".to_string()),
        occurred_on: Date::from_ymd_opt(2024, 2, 1).expect("date"),
    };

    entry.validate().expect("entry is valid");
}

fn new_entry(amount_cents: i64, category: &str) -> NewEntry {
    NewEntry {
        kind: EntryKind::Expense,
        amount_cents,
        category: category.to_string(),
        note: None,
        occurred_on: Date::from_ymd_opt(2024, 1, 1).expect("date"),
    }
}

#[test]
fn validate_zero_amount_food_is_invalid() {
    let err = new_entry(0, "food").validate().unwrap_err();
    assert!(matches!(err, DomainError::InvalidData(_)));
}

#[test]
fn validate_blank_category_is_invalid() {
    let err = new_entry(2500, "   ").validate().unwrap_err();
    assert!(matches!(err, DomainError::InvalidData(_)));
}

#[test]
fn validate_negative_amount_is_invalid() {
    let err = new_entry(-1, "food").validate().unwrap_err();
    assert!(matches!(err, DomainError::InvalidData(_)));
}

#[test]
fn validate_empty_category_is_invalid() {
    let err = new_entry(1, "").validate().unwrap_err();
    assert!(matches!(err, DomainError::InvalidData(_)));
}

#[test]
fn validate_positive_amount_with_category_is_valid() {
    assert!(new_entry(1, "food").validate().is_ok());
    assert!(new_entry(2500, " rent ").validate().is_ok());
}

#[test]
fn category_new_accepts_and_rejects() {
    let c = Category::new("food").expect("category");
    assert_eq!(c.as_str(), "food");
    assert!(matches!(Category::new("  \t\n"), Err(DomainError::InvalidData(_))));
    assert!(matches!(Category::new(""), Err(DomainError::InvalidData(_))));
    assert!(matches!(Category::new("\u{3000}"), Err(DomainError::InvalidData(_))));
}

#[test]
fn blank_detects_whitespace_only_text() {
    assert!(blank(""));
    assert!(blank(" \t\r\n"));
    assert!(!blank(" a "));
    assert!(!blank("x"));
}

#[test]
fn error_messages() {
    assert_eq!(DomainError::Storage("disk".to_string()).message(), "storage error: disk");
    assert_eq!(DomainError::NotFound.message(), "record not found");
    assert_eq!(DomainError::InvalidData("bad".to_string()).message(), "invalid data: bad");
}
