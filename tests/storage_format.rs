use ledger_store::credentials::{
    check_credentials, has_oversized_p_cost, hash_new_password, login_outcome, StoredUser,
};
use ledger_store::date::Date;
use ledger_store::error::DomainError;
use ledger_store::mapper::{decode_entry, decode_entry_with_date, kind_from_str, kind_to_str, EntryRow};
use ledger_store::models::{EntryFilter, EntryId, EntryKind};
use ledger_store::query::list_query;
use ledger_store::schema::{
    migrations, pending_migrations, VersionTable, INIT_SCRIPT, INIT_VERSION, USERS_SCRIPT, USERS_VERSION,
};
use ledger_store::text::{compare_text, is_white_space};

fn row(kind: &str, category: &str, occurred_on: &str) -> EntryRow {
    EntryRow {
        id: 7,
        kind: kind.to_string(),
        amount_cents: 1250,
        category: category.to_string(),
        note: Some("n".to_string()),
        occurred_on: occurred_on.to_string(),
    }
}

#[test]
fn kind_tags_round_trip() {
    assert_eq!(kind_to_str(EntryKind::Expense), "expense");
    assert_eq!(kind_to_str(EntryKind::Income), "income");
    assert_eq!(kind_from_str("expense".to_string()).unwrap(), EntryKind::Expense);
    assert_eq!(kind_from_str("income".to_string()).unwrap(), EntryKind::Income);
    assert!(matches!(kind_from_str("refund".to_string()), Err(DomainError::InvalidData(_))));
    assert!(matches!(kind_from_str("Income".to_string()), Err(DomainError::InvalidData(_))));
}

#[test]
fn decode_entry_reads_a_good_row() {
    let e = decode_entry(row("income", "salary", "2024-03-15")).unwrap();
    assert_eq!(e.id, EntryId(7));
    assert_eq!(e.kind, EntryKind::Income);
    assert_eq!(e.amount_cents, 1250);
    assert_eq!(e.category, "salary");
    assert_eq!(e.note, Some("n".to_string()));
    assert_eq!(e.occurred_on, Date::from_ymd_opt(2024, 3, 15).unwrap());
}

#[test]
fn decode_entry_rejects_bad_rows() {
    assert!(matches!(decode_entry(row("gift", "salary", "2024-03-15")), Err(DomainError::InvalidData(_))));
    assert!(matches!(decode_entry(row("income", "  ", "2024-03-15")), Err(DomainError::InvalidData(_))));
    assert!(matches!(decode_entry(row("income", "salary", "2024-02-30")), Err(DomainError::InvalidData(_))));
    assert!(matches!(decode_entry(row("income", "salary", "15/03/2024")), Err(DomainError::InvalidData(_))));
}

#[test]
fn decode_entry_with_date_uses_the_parsed_date() {
    let e = decode_entry_with_date(row("expense", "food", "ignored"), Some((2020, 2, 29))).unwrap();
    assert_eq!(e.occurred_on, Date { year: 2020, month: 2, day: 29 });
    assert!(matches!(
        decode_entry_with_date(row("expense", "food", "x"), Some((2021, 2, 29))),
        Err(DomainError::InvalidData(_))
    ));
    assert!(matches!(decode_entry_with_date(row("expense", "food", "x"), None), Err(DomainError::InvalidData(_))));
}

#[test]
fn list_query_without_constraints() {
    let (sql, params) = list_query(&EntryFilter::default());
    assert_eq!(
        sql,
        "SELECT id, kind, amount_cents, category, note, occurred_on FROM entries ORDER BY occurred_on DESC, id DESC"
    );
    assert!(params.is_empty());
}

#[test]
fn list_query_with_every_constraint() {
    let (sql, params) = list_query(&EntryFilter {
        from: Some(Date::from_ymd_opt(2024, 1, 5).unwrap()),
        to: Some(Date::from_ymd_opt(2024, 1, 15).unwrap()),
        category: Some("food".to_string()),
    });
    assert_eq!(
        sql,
        "SELECT id, kind, amount_cents, category, note, occurred_on FROM entries WHERE occurred_on >= ? AND occurred_on <= ? AND category = ? ORDER BY occurred_on DESC, id DESC"
    );
    assert_eq!(params, vec!["2024-01-05", "2024-01-15", "food"]);
}

#[test]
fn list_query_with_category_only() {
    let (sql, params) =
        list_query(&EntryFilter { from: None, to: None, category: Some("rent".to_string()) });
    assert_eq!(
        sql,
        "SELECT id, kind, amount_cents, category, note, occurred_on FROM entries WHERE category = ? ORDER BY occurred_on DESC, id DESC"
    );
    assert_eq!(params, vec!["rent"]);
}

#[test]
fn migrations_apply_once() {
    let ms = migrations();
    assert_eq!(ms.len(), 2);
    assert_eq!(ms[0].version, INIT_VERSION);
    assert_eq!(ms[1].version, USERS_VERSION);
    let first = pending_migrations(&ms, &Vec::new());
    assert_eq!(first, vec![0, 1]);
    let recorded: Vec<String> = first.iter().map(|i| ms[*i].version.to_string()).collect();
    assert!(pending_migrations(&ms, &recorded).is_empty());
}

#[test]
fn migrations_skip_recorded_versions() {
    let ms = migrations();
    let recorded = vec!["001_init.sql".to_string(), "999_other.sql".to_string()];
    assert_eq!(pending_migrations(&ms, &recorded), vec![1]);
}

#[test]
fn password_hashes_are_salted_and_verify() {
    let a = hash_new_password("pw123").unwrap();
    let b = hash_new_password("pw123").unwrap();
    assert_ne!(a, "pw123");
    assert!(!a.contains("pw123"));
    assert!(a.starts_with("$argon2"));
    assert_ne!(a, b);
    let stored = StoredUser { id: 3, username: "alice".to_string(), password_hash: a };
    let ok = check_credentials(Some(stored.clone()), "pw123").unwrap().unwrap();
    assert_eq!(ok.id, 3);
    assert_eq!(ok.username, "alice");
    assert_eq!(check_credentials(Some(stored), "pw124").unwrap(), None);
    assert_eq!(check_credentials(None, "pw123").unwrap(), None);
}

#[test]
fn malformed_stored_hash_is_a_storage_error() {
    let stored = StoredUser { id: 1, username: "eve".to_string(), password_hash: "not a hash".to_string() };
    assert!(matches!(check_credentials(Some(stored), "x"), Err(DomainError::Storage(_))));
}

#[test]
fn login_outcome_cases() {
    assert_eq!(login_outcome(None, None).unwrap(), None);
    assert_eq!(login_outcome(Some((2, "bo".to_string())), Some(false)).unwrap(), None);
    assert_eq!(login_outcome(Some((2, "bo".to_string())), Some(true)).unwrap().unwrap().id, 2);
    assert!(matches!(login_outcome(Some((2, "bo".to_string())), None), Err(DomainError::Storage(_))));
}

#[test]
fn compare_text_orders_by_code_point() {
    assert!(compare_text("al", "alice") < 0);
    assert!(compare_text("bob", "alice") > 0);
    assert_eq!(compare_text("same", "same"), 0);
    assert!(compare_text("Zed", "al") < 0);
    assert!(compare_text("", "a") < 0);
}

#[test]
fn white_space_matches_std_for_every_char() {
    for c in (0u32..=0x10FFFF).filter_map(char::from_u32) {
        assert_eq!(is_white_space(c), c.is_whitespace(), "{:?}", c);
    }
}

#[test]
fn oversized_parallelism_is_a_storage_error() {
    let good = hash_new_password("pw123").unwrap();
    assert!(good.contains(",p=1$"));
    assert!(!has_oversized_p_cost(&good));
    let bad = good.replace(",p=1$", ",p=4294967295$");
    assert!(has_oversized_p_cost(&bad));
    let stored = StoredUser { id: 1, username: "mallory".to_string(), password_hash: bad };
    assert!(matches!(check_credentials(Some(stored), "pw123"), Err(DomainError::Storage(_))));
}

#[test]
fn unusable_parameters_are_a_storage_error() {
    let good = hash_new_password("pw123").unwrap();
    let bad = good.replacen("m=19456", "m=1", 1);
    assert_ne!(bad, good);
    let stored = StoredUser { id: 1, username: "mallory".to_string(), password_hash: bad };
    assert!(matches!(check_credentials(Some(stored), "pw123"), Err(DomainError::Storage(_))));
}

#[test]
fn eight_digit_p_cost_is_not_oversized() {
    assert!(!has_oversized_p_cost("$argon2id$v=19$m=19456,t=2,p=99999999$c2FsdA$aGFzaA"));
    assert!(has_oversized_p_cost("$argon2id$v=19$m=19456,t=2,p=100000000$c2FsdA$aGFzaA"));
    assert!(!has_oversized_p_cost(""));
}

#[test]
fn migrations_carry_their_scripts() {
    let ms = migrations();
    assert_eq!(ms[0].script, INIT_SCRIPT);
    assert_eq!(ms[1].script, USERS_SCRIPT);
    assert!(INIT_SCRIPT.contains("CREATE TABLE entries"));
    assert!(USERS_SCRIPT.contains("username TEXT NOT NULL UNIQUE"));
}

#[test]
fn reopening_applies_nothing() {
    let ms = migrations();
    let mut first = VersionTable::new(Vec::new());
    assert_eq!(first.open(&ms), vec![0, 1]);
    let mut second = VersionTable::new(vec!["001_init.sql".to_string(), "002_users.sql".to_string()]);
    assert!(second.open(&ms).is_empty());
    assert!(second.open(&ms).is_empty());
    let mut partial = VersionTable::new(vec!["001_init.sql".to_string()]);
    assert_eq!(partial.open(&ms), vec![1]);
    assert!(partial.open(&ms).is_empty());
}
