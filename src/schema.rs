use vstd::prelude::*;

use crate::text::{compare_text, text_views};

verus! {

/// Creates the table that records which schema versions have been applied;
/// harmless when it exists.
pub const CREATE_VERSION_TABLE: &'static str = "CREATE TABLE IF NOT EXISTS schema_migrations (
    version TEXT PRIMARY KEY,
    applied_at TEXT NOT NULL DEFAULT CURRENT_TIMESTAMP
)";

/// Reads the applied schema versions.
pub const SELECT_APPLIED_VERSIONS: &'static str = "SELECT version FROM schema_migrations";

/// Records one applied schema version.
pub const RECORD_VERSION: &'static str = "INSERT INTO schema_migrations (version) VALUES (?1)";

/// The first schema version: the entries table.
pub const INIT_VERSION: &'static str = "001_init.sql";

/// Script of the first schema version.
pub const INIT_SCRIPT: &'static str = "CREATE TABLE entries (
    id INTEGER PRIMARY KEY AUTOINCREMENT,
    kind TEXT NOT NULL CHECK (kind IN ('expense', 'income')),
    amount_cents INTEGER NOT NULL,
    category TEXT NOT NULL,
    note TEXT,
    occurred_on TEXT NOT NULL
);
CREATE INDEX entries_occurred_on ON entries (occurred_on);";

/// The second schema version: the users table.
pub const USERS_VERSION: &'static str = "002_users.sql";

/// Script of the second schema version.
pub const USERS_SCRIPT: &'static str = "CREATE TABLE users (
    id INTEGER PRIMARY KEY AUTOINCREMENT,
    username TEXT NOT NULL UNIQUE,
    password_hash TEXT NOT NULL
);";

/// Inserts one entry row.
pub const INSERT_ENTRY: &'static str = "INSERT INTO entries (kind, amount_cents, category, note, occurred_on)
 VALUES (?1, ?2, ?3, ?4, ?5)";

/// Inserts one user row.
pub const INSERT_USER: &'static str = "INSERT INTO users (username, password_hash) VALUES (?1, ?2)";

/// Reads the user row of one name.
pub const SELECT_USER_BY_NAME: &'static str = "SELECT id, username, password_hash FROM users WHERE username = ?1";

/// Reads all user names in ascending order.
pub const SELECT_USER_NAMES: &'static str = "SELECT username FROM users ORDER BY username";

/// One schema change: a version identifier and the script that makes it.
pub struct Migration {
    pub version: &'static str,
    pub script: &'static str,
}

/// The schema changes, in the order they apply.
pub fn migrations() -> (r: Vec<Migration>)
    ensures
        r@.len() == 2,
        r@[0].version@ == INIT_VERSION@,
        r@[0].script@ == INIT_SCRIPT@,
        r@[1].version@ == USERS_VERSION@,
        r@[1].script@ == USERS_SCRIPT@,
{
    let mut r: Vec<Migration> = Vec::new();
    r.push(Migration { version: INIT_VERSION, script: INIT_SCRIPT });
    r.push(Migration { version: USERS_VERSION, script: USERS_SCRIPT });
    r
}

/// The version identifiers of a list of migrations.
pub open spec fn versions_of(ms: Seq<Migration>) -> Seq<Seq<char>> {
    ms.map_values(|m: Migration| m.version@)
}

/// `plan` holds, in increasing order, exactly the positions of the versions
/// that `applied` does not record.
pub open spec fn is_plan(versions: Seq<Seq<char>>, applied: Seq<Seq<char>>, plan: Seq<usize>) -> bool {
    &&& forall|a: int, b: int| 0 <= a < b < plan.len() ==> #[trigger] plan[a] < #[trigger] plan[b]
    &&& forall|k: int|
        0 <= k < plan.len() ==> #[trigger] plan[k] < versions.len() && !applied.contains(
            versions[plan[k] as int],
        )
    &&& forall|i: int|
        0 <= i < versions.len() && !applied.contains(#[trigger] versions[i]) ==> plan.contains(
            i as usize,
        )
}

/// What the version table records once every step of `plan` has committed.
pub open spec fn recorded_after(versions: Seq<Seq<char>>, applied: Seq<Seq<char>>, plan: Seq<usize>) -> Seq<
    Seq<char>,
> {
    applied + plan.map_values(|i: usize| versions[i as int])
}

fn is_recorded(applied: &Vec<String>, version: &str) -> (r: bool)
    ensures
        r == text_views(applied@).contains(version@),
{
    let mut k: usize = 0;
    while k < applied.len()
        invariant
            k <= applied@.len(),
            forall|j: int| 0 <= j < k ==> text_views(applied@)[j] != version@,
        decreases applied@.len() - k,
    {
        if compare_text(applied[k].as_str(), version) == 0 {
            assert(text_views(applied@)[k as int] == version@);
            return true;
        }
        k = k + 1;
    }
    false
}

/// The positions of the migrations still to apply, in order: those whose
/// version the version table does not record.
pub fn pending_migrations(ms: &Vec<Migration>, applied: &Vec<String>) -> (r: Vec<usize>)
    ensures
        is_plan(versions_of(ms@), text_views(applied@), r@),
{
    let ghost vs = versions_of(ms@);
    let mut r: Vec<usize> = Vec::new();
    let mut i: usize = 0;
    while i < ms.len()
        invariant
            i <= ms@.len(),
            vs == versions_of(ms@),
            forall|a: int, b: int| 0 <= a < b < r@.len() ==> #[trigger] r@[a] < #[trigger] r@[b],
            forall|k: int|
                0 <= k < r@.len() ==> #[trigger] r@[k] < i && !text_views(applied@).contains(
                    vs[r@[k] as int],
                ),
            forall|j: int|
                0 <= j < i && !text_views(applied@).contains(#[trigger] vs[j]) ==> r@.contains(
                    j as usize,
                ),
        decreases ms@.len() - i,
    {
        assert(vs[i as int] == ms@[i as int].version@);
        if !is_recorded(applied, ms[i].version) {
            let ghost before = r@;
            r.push(i);
            assert(r@[before.len() as int] == i);
            assert forall|j: int|
                0 <= j < i + 1 && !text_views(applied@).contains(#[trigger] vs[j]) implies r@.contains(
                j as usize,
            ) by {
                if j < i {
                    let k = choose|k: int| 0 <= k < before.len() && before[k] == j as usize;
                    assert(r@[k] == j as usize);
                }
            }
        }
        i = i + 1;
    }
    r
}

/// The schema versions that a database's version table records.
pub struct VersionTable {
    applied: Vec<String>,
}

impl View for VersionTable {
    type V = Seq<Seq<char>>;

    closed spec fn view(&self) -> Seq<Seq<char>> {
        text_views(self.applied@)
    }
}

impl VersionTable {
    /// The table as read when the database is opened.
    pub fn new(applied: Vec<String>) -> (r: VersionTable)
        ensures
            r@ == text_views(applied@),
    {
        VersionTable { applied }
    }

    /// Plans the migrations of `ms` that the table does not record, in order,
    /// and records them: the steps to run, each in its own transaction, when
    /// the database is opened.
    pub fn open(&mut self, ms: &Vec<Migration>) -> (plan: Vec<usize>)
        ensures
            is_plan(versions_of(ms@), old(self)@, plan@),
            final(self)@ == recorded_after(versions_of(ms@), old(self)@, plan@),
    {
        let plan = pending_migrations(ms, &self.applied);
        let ghost vs = versions_of(ms@);
        let ghost start = self@;
        let mut k: usize = 0;
        while k < plan.len()
            invariant
                k <= plan@.len(),
                vs == versions_of(ms@),
                is_plan(vs, start, plan@),
                self@ == start + plan@.take(k as int).map_values(|i: usize| vs[i as int]),
            decreases plan@.len() - k,
        {
            let index = plan[k];
            assert(index < ms@.len());
            assert(vs[index as int] == ms@[index as int].version@);
            let ghost before = self@;
            self.applied.push(String::from_str(ms[index].version));
            assert(plan@.take(k + 1).map_values(|i: usize| vs[i as int]) =~= plan@.take(
                k as int,
            ).map_values(|i: usize| vs[i as int]).push(vs[index as int]));
            assert(self@ =~= before.push(vs[index as int]));
            k = k + 1;
        }
        assert(plan@.take(plan@.len() as int) =~= plan@);
        plan
    }
}

/// Migrating is idempotent: once every pending step has been recorded, a
/// second opening finds nothing to apply and records nothing more.
pub proof fn law_migrations_idempotent(
    versions: Seq<Seq<char>>,
    applied: Seq<Seq<char>>,
    plan: Seq<usize>,
    second: Seq<usize>,
)
    requires
        is_plan(versions, applied, plan),
        is_plan(versions, recorded_after(versions, applied, plan), second),
    ensures
        second.len() == 0,
        recorded_after(versions, recorded_after(versions, applied, plan), second) == recorded_after(
            versions,
            applied,
            plan,
        ),
{
    let after = recorded_after(versions, applied, plan);
    if second.len() > 0 {
        let i = second[0] as int;
        assert(!after.contains(versions[i]));
        if applied.contains(versions[i]) {
            let k = choose|k: int| 0 <= k < applied.len() && applied[k] == versions[i];
            assert(after[k] == versions[i]);
        } else {
            assert(plan.contains(i as usize));
            let k = choose|k: int| 0 <= k < plan.len() && plan[k] == i as usize;
            assert(after[applied.len() + k] == versions[i]);
        }
    }
    assert(recorded_after(versions, after, second) =~= after);
}

} // verus!
