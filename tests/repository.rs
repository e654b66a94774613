use ledger_store::date::Date;
use ledger_store::error::DomainError;
use ledger_store::memory::MemoryRepository;
use ledger_store::models::{EntryFilter, EntryId, EntryKind, NewEntry};
use ledger_store::repository::{EntryRepository, UserRepository};

fn entry(kind: EntryKind, amount_cents: i64, category: &str, y: i32, m: u32, d: u32) -> NewEntry {
    NewEntry {
        kind,
        amount_cents,
        category: category.to_string(),
        note: None,
        occurred_on: Date::from_ymd_opt(y, m, d).expect("date"),
    }
}

#[test]
fn lib_add_and_list_entries() {
    let mut repo = MemoryRepository::new();

    let entry = repo
        .add(NewEntry {
            kind: EntryKind::Expense,
            amount_cents: 1234,
            category: "food".to_string(),
            note: Some("lunch".to_string()),
            occurred_on: Date::from_ymd_opt(2024, 1, 20).expect("date"),
        })
        .expect("entry added");

    let entries = repo.list(EntryFilter::default()).expect("entries listed");

    assert_eq!(entries.len(), 1);
    assert_eq!(entries[0], entry);
}

#[test]
fn lib_list_filters_by_category() {
    let mut repo = MemoryRepository::new();

    repo.add(entry(EntryKind::Expense, 500, "food", 2024, 1, 10)).expect("entry added");
    repo.add(entry(EntryKind::Income, 2500, "salary", 2024, 1, 15)).expect("entry added");

    let entries = repo
        .list(EntryFilter { from: None, to: None, category: Some("food".to_string()) })
        .expect("entries listed");

    assert_eq!(entries.len(), 1);
    assert_eq!(entries[0].category, "food");
}

#[test]
fn list_filters_by_date_range() {
    let mut repo = MemoryRepository::new();

    repo.add(entry(EntryKind::Expense, 100, "food", 2024, 1, 1)).expect("entry added");
    repo.add(entry(EntryKind::Expense, 200, "food", 2024, 1, 10)).expect("entry added");
    repo.add(entry(EntryKind::Expense, 300, "food", 2024, 1, 20)).expect("entry added");

    let entries = repo
        .list(EntryFilter {
            from: Some(Date::from_ymd_opt(2024, 1, 5).expect("date")),
            to: Some(Date::from_ymd_opt(2024, 1, 15).expect("date")),
            category: None,
        })
        .expect("entries listed");

    assert_eq!(entries.len(), 1);
    assert_eq!(entries[0].amount_cents, 200);
}

#[test]
fn repository_add_and_list_entries() {
    let mut repo = MemoryRepository::new();

    let entry = repo
        .add(NewEntry {
            kind: EntryKind::Expense,
            amount_cents: 1234,
            category: "food".to_string(),
            note: Some("lunch".to_string()),
            occurred_on: Date::from_ymd_opt(2024, 1, 20).expect("date"),
        })
        .expect("entry added");

    let entries = repo.list(EntryFilter::default()).expect("entries listed");

    assert_eq!(entries.len(), 1);
    assert_eq!(entries[0], entry);
}

#[test]
fn repository_list_filters_by_category() {
    let mut repo = MemoryRepository::new();

    repo.add(entry(EntryKind::Expense, 500, "food", 2024, 1, 10)).expect("entry added");
    repo.add(entry(EntryKind::Income, 2500, "salary", 2024, 1, 15)).expect("entry added");

    let entries = repo
        .list(EntryFilter { from: None, to: None, category: Some("food".to_string()) })
        .expect("entries listed");

    assert_eq!(entries.len(), 1);
    assert_eq!(entries[0].category.as_str(), "food");
}

#[test]
fn create_and_verify_user() {
    let mut repo = MemoryRepository::new();

    let user = repo.create_user("alice", "password123").expect("user created");

    assert_eq!(user.username, "alice");

    let verified = repo.verify_user("alice", "password123").expect("verify ok");
    assert_eq!(verified.as_ref().map(|u| u.username.as_str()), Some("alice"));

    let wrong_pass = repo.verify_user("alice", "wrong").expect("verify ok (fail)");
    assert!(wrong_pass.is_none());

    let unknown = repo.verify_user("bob", "whatever").expect("verify ok (unknown)");
    assert!(unknown.is_none());

    let users = repo.list_users().expect("list users");
    assert!(users.contains(&"alice".to_string()));
}

#[test]
fn added_entry_is_listed_with_its_new_id() {
    let mut repo = MemoryRepository::new();
    repo.add(entry(EntryKind::Income, 10, "gift", 2023, 5, 5)).unwrap();
    let input = NewEntry {
        kind: EntryKind::Expense,
        amount_cents: 4999,
        category: "books".to_string(),
        note: Some("novel".to_string()),
        occurred_on: Date::from_ymd_opt(2024, 3, 3).unwrap(),
    };
    let stored = repo.add(input.clone()).unwrap();
    assert_eq!(stored.id, EntryId(2));
    assert_eq!(stored.kind, input.kind);
    assert_eq!(stored.amount_cents, input.amount_cents);
    assert_eq!(stored.category, input.category);
    assert_eq!(stored.note, input.note);
    assert_eq!(stored.occurred_on, input.occurred_on);
    let all = repo.list(EntryFilter::default()).unwrap();
    assert!(all.contains(&stored));
}

#[test]
fn date_bounds_are_inclusive() {
    let mut repo = MemoryRepository::new();
    repo.add(entry(EntryKind::Expense, 1, "food", 2024, 1, 1)).unwrap();
    repo.add(entry(EntryKind::Expense, 2, "food", 2024, 1, 2)).unwrap();
    repo.add(entry(EntryKind::Expense, 3, "food", 2024, 1, 3)).unwrap();
    let entries = repo
        .list(EntryFilter {
            from: Some(Date::from_ymd_opt(2024, 1, 1).unwrap()),
            to: Some(Date::from_ymd_opt(2024, 1, 2).unwrap()),
            category: None,
        })
        .unwrap();
    let amounts: Vec<i64> = entries.iter().map(|e| e.amount_cents).collect();
    assert_eq!(amounts, vec![2, 1]);
}

#[test]
fn category_filter_returns_only_that_category() {
    let mut repo = MemoryRepository::new();
    for (i, c) in ["food", "rent", "food", "Food", "food ", "salary", "food"].iter().enumerate() {
        repo.add(entry(EntryKind::Expense, i as i64 + 1, c, 2024, 2, 1 + i as u32)).unwrap();
    }
    let entries = repo
        .list(EntryFilter { from: None, to: None, category: Some("food".to_string()) })
        .unwrap();
    assert_eq!(entries.len(), 3);
    assert!(entries.iter().all(|e| e.category == "food"));
}

#[test]
fn list_orders_newest_first_then_by_id() {
    let mut repo = MemoryRepository::new();
    repo.add(entry(EntryKind::Expense, 1, "a", 2024, 1, 5)).unwrap();
    repo.add(entry(EntryKind::Expense, 2, "a", 2024, 1, 9)).unwrap();
    repo.add(entry(EntryKind::Expense, 3, "a", 2024, 1, 5)).unwrap();
    repo.add(entry(EntryKind::Expense, 4, "a", 2023, 12, 31)).unwrap();
    let ids: Vec<i64> = repo.list(EntryFilter::default()).unwrap().iter().map(|e| e.id.0).collect();
    assert_eq!(ids, vec![2, 3, 1, 4]);
}

#[test]
fn list_of_empty_repository_is_empty() {
    let repo = MemoryRepository::new();
    assert!(repo.list(EntryFilter::default()).unwrap().is_empty());
    assert!(repo.list_users().unwrap().is_empty());
}

#[test]
fn verify_user_scenario_pw123() {
    let mut repo = MemoryRepository::new();
    let created = repo.create_user("alice", "pw123").unwrap();
    assert_eq!(created.id, 1);
    let ok = repo.verify_user("alice", "pw123").unwrap().expect("match");
    assert_eq!(ok.username, "alice");
    assert_eq!(ok.id, created.id);
    let wrong = repo.verify_user("alice", "wrong").unwrap();
    let unknown = repo.verify_user("bob", "anything").unwrap();
    assert_eq!(wrong, None);
    assert_eq!(unknown, None);
    assert_eq!(wrong, unknown);
}

#[test]
fn duplicate_username_is_a_storage_error() {
    let mut repo = MemoryRepository::new();
    repo.create_user("alice", "one").unwrap();
    let err = repo.create_user("alice", "two").unwrap_err();
    assert!(matches!(err, DomainError::Storage(_)));
    assert!(repo.verify_user("alice", "one").unwrap().is_some());
    assert!(repo.verify_user("alice", "two").unwrap().is_none());
}

#[test]
fn empty_username_is_invalid_data() {
    let mut repo = MemoryRepository::new();
    assert!(matches!(repo.create_user("", "pw"), Err(DomainError::InvalidData(_))));
}

#[test]
fn list_users_is_sorted() {
    let mut repo = MemoryRepository::new();
    for name in ["carol", "alice", "bob", "Zed", "al"] {
        repo.create_user(name, "pw").unwrap();
    }
    assert_eq!(repo.list_users().unwrap(), vec!["Zed", "al", "alice", "bob", "carol"]);
}

fn through_traits<R: EntryRepository>(repo: &mut R) -> usize {
    repo.create_user("dora", "secret").unwrap();
    assert!(repo.verify_user("dora", "secret").unwrap().is_some());
    EntryRepository::add(repo, entry(EntryKind::Income, 7, "misc", 2024, 6, 1)).unwrap();
    EntryRepository::list(repo, EntryFilter::default()).unwrap().len()
}

#[test]
fn repository_traits_reach_the_memory_repository() {
    let mut repo = MemoryRepository::new();
    assert_eq!(through_traits(&mut repo), 1);
    assert_eq!(UserRepository::list_users(&repo).unwrap(), vec!["dora"]);
}

#[test]
fn store_user_passes_on_a_hashing_failure() {
    let mut repo = MemoryRepository::new();
    let failed = Err(DomainError::Storage("hashing failed".to_string()));
    assert_eq!(repo.store_user("alice", failed), Err(DomainError::Storage("hashing failed".to_string())));
    assert!(repo.list_users().unwrap().is_empty());
}

#[test]
fn store_user_records_the_given_hash() {
    let mut repo = MemoryRepository::new();
    let hash = ledger_store::credentials::hash_new_password("pw").unwrap();
    let user = repo.store_user("alice", Ok(hash)).unwrap();
    assert_eq!(user.id, 1);
    assert_eq!(user.username, "alice");
    assert!(repo.verify_user("alice", "pw").unwrap().is_some());
    assert!(matches!(repo.store_user("", Ok("x".to_string())), Err(DomainError::InvalidData(_))));
    assert!(matches!(repo.store_user("alice", Ok("x".to_string())), Err(DomainError::Storage(_))));
    assert_eq!(repo.list_users().unwrap(), vec!["alice"]);
}
