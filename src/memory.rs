use vstd::prelude::*;

use crate::date::{date_le, date_lt};
use crate::credentials::{
    check_credentials, hash_new_password, opt_user_view, stored_verdict, validate_username, StoredUser,
    UserRecord, MAX_PASSWORD_CHARS,
};
use crate::text::{compare_text, lemma_text_lt_transitive, text_lt, text_views};
use crate::error::DomainError;
use crate::models::{filter_accepts, Entry, EntryFilter, EntryId, EntryRecord, FilterView, NewEntry, User};

verus! {

/// A stored entry as plain values: its identifier and its contents.
pub type EntryView = (i64, EntryRecord);

/// Everything an in-memory repository holds, in order of insertion.
pub struct RepoState {
    pub entries: Seq<EntryView>,
    pub users: Seq<UserRecord>,
}

/// The views of a sequence of entries.
pub open spec fn views(s: Seq<Entry>) -> Seq<EntryView> {
    s.map_values(|e: Entry| e@)
}

/// Identifiers count up from 1 in order of insertion, and no two users share a name.
pub open spec fn state_wf(s: RepoState) -> bool {
    &&& forall|i: int| 0 <= i < s.entries.len() ==> #[trigger] s.entries[i].0 == i + 1
    &&& forall|i: int| 0 <= i < s.users.len() ==> #[trigger] s.users[i].id == i + 1
    &&& forall|i: int, j: int|
        0 <= i < s.users.len() && 0 <= j < s.users.len() && i != j ==> #[trigger] s.users[i].username
            != #[trigger] s.users[j].username
}

/// The state after storing `rec` as a new entry: it gets the next identifier.
pub open spec fn after_add(s: RepoState, rec: EntryRecord) -> RepoState {
    RepoState { entries: s.entries.push(((s.entries.len() + 1) as i64, rec)), users: s.users }
}

/// `a` comes before `b` in a listing: it is dated later, or on the same day
/// with a greater identifier.
pub open spec fn newer(a: EntryView, b: EntryView) -> bool {
    date_lt(b.1.occurred_on, a.1.occurred_on) || (b.1.occurred_on == a.1.occurred_on && b.0 < a.0)
}

/// Newest first: every entry comes before all entries that follow it.
pub open spec fn newest_first(s: Seq<EntryView>) -> bool {
    forall|i: int, j: int| 0 <= i < j < s.len() ==> newer(#[trigger] s[i], #[trigger] s[j])
}

/// `r` is the answer to the query `f` over the stored entries: exactly the
/// stored entries that `f` accepts, newest first.
pub open spec fn is_listing(stored: Seq<EntryView>, f: FilterView, r: Seq<EntryView>) -> bool {
    &&& newest_first(r)
    &&& forall|k: int| 0 <= k < r.len() ==> stored.contains(#[trigger] r[k]) && filter_accepts(f, r[k].1)
    &&& forall|k: int|
        0 <= k < stored.len() && filter_accepts(f, #[trigger] stored[k].1) ==> r.contains(stored[k])
}

/// `v` is one of the stored entries from position `lo` on that `f` accepts.
spec fn accepted_from(stored: Seq<EntryView>, f: FilterView, lo: int, v: EntryView) -> bool {
    exists|j: int| lo <= j < stored.len() && stored[j] == v && filter_accepts(f, stored[j].1)
}

/// Some stored user has the name `name`.
pub open spec fn name_taken(users: Seq<UserRecord>, name: Seq<char>) -> bool {
    exists|k: int| 0 <= k < users.len() && (#[trigger] users[k]).username == name
}

/// The outcome of a login with `name` and `password` against the state `s`:
/// `None` for a malformed stored hash, else the matching user or no match.
pub open spec fn login_result(s: RepoState, name: Seq<char>, password: Seq<char>) -> Option<
    Option<(i64, Seq<char>)>,
> {
    if name_taken(s.users, name) {
        let k = choose|k: int| 0 <= k < s.users.len() && (#[trigger] s.users[k]).username == name;
        let u = s.users[k];
        match stored_verdict(password, u.password_hash) {
            None => None,
            Some(true) => Some(Some((u.id, u.username))),
            Some(false) => Some(None),
        }
    } else {
        Some(None)
    }
}

/// `before` with one more user, named `name` and stored with the hash `hash`,
/// under the next identifier.
pub open spec fn after_store(before: RepoState, name: Seq<char>, hash: Seq<char>) -> RepoState {
    RepoState {
        entries: before.entries,
        users: before.users.push(
            UserRecord { id: (before.users.len() + 1) as i64, username: name, password_hash: hash },
        ),
    }
}

/// `after` is `before` with one more user, named `name`, under the next
/// identifier, whose stored hash accepts `password`.
pub open spec fn user_created(
    before: RepoState,
    name: Seq<char>,
    password: Seq<char>,
    after: RepoState,
) -> bool {
    exists|hash: Seq<char>|
        after == after_store(before, name, hash) && stored_verdict(password, hash) == Some(true)
}

/// `r` lists exactly the stored user names, in strictly ascending lexicographic order.
pub open spec fn is_name_listing(users: Seq<UserRecord>, r: Seq<Seq<char>>) -> bool {
    &&& forall|i: int, j: int| 0 <= i < j < r.len() ==> text_lt(#[trigger] r[i], #[trigger] r[j])
    &&& forall|k: int| 0 <= k < r.len() ==> name_taken(users, #[trigger] r[k])
    &&& forall|k: int| 0 <= k < users.len() ==> r.contains(#[trigger] users[k].username)
}

/// `name` is the name of one of the first `n` stored users.
spec fn name_among(users: Seq<UserRecord>, n: int, name: Seq<char>) -> bool {
    exists|c: int| 0 <= c < n && users[c].username == name
}

/// A repository that keeps its records in memory, for callers and tests that
/// need no database file.
pub struct MemoryRepository {
    entries: Vec<Entry>,
    users: Vec<StoredUser>,
}

impl View for MemoryRepository {
    type V = RepoState;

    closed spec fn view(&self) -> RepoState {
        RepoState {
            entries: views(self.entries@),
            users: self.users@.map_values(|u: StoredUser| u@),
        }
    }
}

proof fn lemma_date_le_total(a: crate::date::Date, b: crate::date::Date)
    ensures
        date_le(a, b) || date_lt(b, a),
{
}

impl MemoryRepository {
    #[verifier::type_invariant]
    spec fn inv(self) -> bool {
        state_wf(self@)
    }

    /// An empty repository.
    pub fn new() -> (r: MemoryRepository)
        ensures
            state_wf(r@),
            r@.entries.len() == 0,
            r@.users.len() == 0,
    {
        let r = MemoryRepository { entries: Vec::new(), users: Vec::new() };
        assert(r@.entries =~= Seq::empty());
        assert(r@.users =~= Seq::empty());
        r
    }

    /// Stores `entry` under the next identifier and returns the stored entry;
    /// `Storage` when identifiers are used up.
    pub fn add(&mut self, entry: NewEntry) -> (r: Result<Entry, DomainError>)
        ensures
            state_wf(final(self)@),
            old(self)@.entries.len() < i64::MAX ==> (r matches Ok(e) && e@ == (
                (old(self)@.entries.len() + 1) as i64,
                entry@,
            ) && final(self)@ == after_add(old(self)@, entry@)),
            old(self)@.entries.len() >= i64::MAX ==> (r matches Err(e) && e is Storage
                && final(self)@ == old(self)@),
    {
        proof {
            use_type_invariant(&*self);
        }
        let count = self.entries.len() as u64;
        if count >= i64::MAX as u64 {
            return Err(DomainError::Storage(String::from_str("no identifier left for a new entry")));
        }
        let id = EntryId((count + 1) as i64);
        let stored = Entry::from_new(id, entry);
        let result = stored.duplicate();
        let ghost old_state = self@;
        let mut grown: Vec<Entry> = Vec::new();
        assert(views(grown@) =~= Seq::<EntryView>::empty());
        assert(state_wf(RepoState { entries: views(grown@), users: old_state.users }));
        std::mem::swap(&mut self.entries, &mut grown);
        assert(views(grown@) == old_state.entries);
        let ghost stored_view = stored@;
        grown.push(stored);
        assert(views(grown@) =~= old_state.entries.push(stored_view));
        assert(state_wf(RepoState { entries: views(grown@), users: old_state.users }));
        std::mem::swap(&mut self.entries, &mut grown);
        assert(self@.entries =~= after_add(old(self)@, entry@).entries);
        Ok(result)
    }

    /// The stored entries that `filter` accepts, newest first (by date, then
    /// by identifier); empty when none match.
    pub fn list(&self, filter: EntryFilter) -> (r: Result<Vec<Entry>, DomainError>)
        ensures
            state_wf(self@),
            r matches Ok(v) && is_listing(self@.entries, filter@, views(v@)),
    {
        proof {
            use_type_invariant(self);
        }
        let ghost stored = self@.entries;
        let n = self.entries.len();
        let mut res: Vec<Entry> = Vec::new();
        let mut i: usize = n;
        while i > 0
            invariant
                n == self.entries@.len(),
                stored == views(self.entries@),
                state_wf(self@),
                stored == self@.entries,
                i <= n,
                newest_first(views(res@)),
                forall|k: int|
                    0 <= k < res@.len() ==> accepted_from(stored, filter@, i as int, #[trigger] views(res@)[k]),
                forall|j: int|
                    i <= j < n && filter_accepts(filter@, #[trigger] stored[j].1) ==> views(
                        res@,
                    ).contains(stored[j]),
            decreases i,
        {
            i = i - 1;
            let cur = &self.entries[i];
            assert(stored[i as int] == cur@);
            if filter.accepts(cur) {
                let ghost old_res = views(res@);
                let mut p: usize = 0;
                while p < res.len() && cur.occurred_on.le(&res[p].occurred_on)
                    invariant
                        p <= res@.len(),
                        old_res == views(res@),
                        forall|k: int| 0 <= k < p ==> date_le(cur.occurred_on, #[trigger] old_res[k].1.occurred_on),
                    decreases res@.len() - p,
                {
                    assert(old_res[p as int] == res@[p as int]@);
                    p = p + 1;
                }
                assert(forall|k: int| 0 <= k < old_res.len() ==> #[trigger] old_res[k].0 > i + 1) by {
                    assert forall|k: int| 0 <= k < old_res.len() implies #[trigger] old_res[k].0 > i + 1 by {
                        assert(accepted_from(stored, filter@, i + 1, old_res[k]));
                        let j = choose|j: int| i + 1 <= j < n && stored[j] == old_res[k] && filter_accepts(filter@, stored[j].1);
                        assert(stored[j].0 == j + 1);
                    }
                }
                if p < res.len() {
                    assert(old_res[p as int] == res@[p as int]@);
                    proof {
                        lemma_date_le_total(cur.occurred_on, old_res[p as int].1.occurred_on);
                    }
                    assert(date_lt(old_res[p as int].1.occurred_on, cur.occurred_on));
                }
                let x = cur.duplicate();
                res.insert(p, x);
                let ghost new_res = views(res@);
                assert(new_res =~= old_res.insert(p as int, cur@));
                assert(cur@.0 == i + 1);
                assert(newest_first(new_res)) by {
                    assert forall|a: int, b: int| 0 <= a < b < new_res.len() implies newer(#[trigger] new_res[a], #[trigger] new_res[b]) by {
                        if a < p && b < p {
                            assert(newer(old_res[a], old_res[b]));
                        } else if a < p && b == p {
                        } else if a < p && b > p {
                            assert(newer(old_res[a], old_res[b - 1]));
                        } else if a == p {
                            assert(b > p);
                            if b - 1 > p {
                                assert(newer(old_res[p as int], old_res[b - 1]));
                            }
                        } else {
                            assert(newer(old_res[a - 1], old_res[b - 1]));
                        }
                    }
                }
                assert forall|k: int| 0 <= k < new_res.len() implies accepted_from(stored, filter@, i as int, #[trigger] new_res[k]) by {
                    if k < p {
                        assert(new_res[k] == old_res[k]);
                        assert(accepted_from(stored, filter@, i + 1, old_res[k]));
                    } else if k == p {
                        assert(stored[i as int] == new_res[k]);
                    } else {
                        assert(new_res[k] == old_res[k - 1]);
                        assert(accepted_from(stored, filter@, i + 1, old_res[k - 1]));
                    }
                }
                assert forall|j: int| i <= j < n && filter_accepts(filter@, #[trigger] stored[j].1) implies new_res.contains(stored[j]) by {
                    if j == i {
                        assert(new_res[p as int] == stored[j]);
                    } else {
                        assert(old_res.contains(stored[j]));
                        let k = choose|k: int| 0 <= k < old_res.len() && old_res[k] == stored[j];
                        if k < p {
                            assert(new_res[k] == stored[j]);
                        } else {
                            assert(new_res[k + 1] == stored[j]);
                        }
                    }
                }
            } else {
                assert forall|j: int| i <= j < n && filter_accepts(filter@, #[trigger] stored[j].1) implies views(res@).contains(stored[j]) by {
                    assert(j != i);
                }
                assert forall|k: int| 0 <= k < res@.len() implies accepted_from(stored, filter@, i as int, #[trigger] views(res@)[k]) by {
                    assert(accepted_from(stored, filter@, i + 1, views(res@)[k]));
                }
            }
        }
        assert forall|k: int| 0 <= k < views(res@).len() implies stored.contains(#[trigger] views(res@)[k]) && filter_accepts(filter@, views(res@)[k].1) by {
            assert(accepted_from(stored, filter@, 0, views(res@)[k]));
            let j = choose|j: int| 0 <= j < n && stored[j] == views(res@)[k] && filter_accepts(filter@, stored[j].1);
            assert(stored[j] == views(res@)[k]);
        }
        Ok(res)
    }

    fn find_user(&self, username: &str) -> (r: Option<usize>)
        requires
            state_wf(self@),
        ensures
            r matches Some(k) ==> k < self@.users.len() && self@.users[k as int].username == username@,
            r is None ==> !name_taken(self@.users, username@),
    {
        let mut k: usize = 0;
        while k < self.users.len()
            invariant
                k <= self.users@.len(),
                self@.users == self.users@.map_values(|u: StoredUser| u@),
                forall|j: int| 0 <= j < k ==> (#[trigger] self@.users[j]).username != username@,
            decreases self.users@.len() - k,
        {
            assert(self@.users[k as int] == self.users@[k as int]@);
            if compare_text(self.users[k].username.as_str(), username) == 0 {
                return Some(k);
            }
            k = k + 1;
        }
        None
    }

    /// Stores a user under the next identifier with the outcome of hashing its
    /// password: a hashing failure is passed on; then `InvalidData` for an
    /// empty name, `Storage` for a taken name or when identifiers are used
    /// up. Nothing changes on any error.
    pub fn store_user(&mut self, username: &str, hashed: Result<String, DomainError>) -> (r: Result<
        User,
        DomainError,
    >)
        ensures
            state_wf(final(self)@),
            r is Err ==> final(self)@ == old(self)@,
            hashed matches Err(e) ==> r == Err::<User, DomainError>(e),
            hashed is Ok && username@.len() == 0 ==> (r matches Err(e) && e is InvalidData),
            hashed is Ok && username@.len() > 0 && name_taken(old(self)@.users, username@) ==> (r matches Err(e)
                && e is Storage),
            hashed is Ok && username@.len() > 0 && !name_taken(old(self)@.users, username@)
                && old(self)@.users.len() >= i64::MAX ==> (r matches Err(e) && e is Storage),
            hashed matches Ok(h) ==> (username@.len() > 0 && !name_taken(old(self)@.users, username@)
                && old(self)@.users.len() < i64::MAX ==> (r matches Ok(u) && u.id == old(self)@.users.len()
                + 1 && u.username@ == username@ && final(self)@ == after_store(old(self)@, username@, h@))),
    {
        proof {
            use_type_invariant(&*self);
        }
        let hash = match hashed {
            Ok(h) => h,
            Err(e) => return Err(e),
        };
        if let Err(e) = validate_username(username) {
            return Err(e);
        }
        if self.find_user(username).is_some() {
            return Err(
                DomainError::Storage(String::from_str("UNIQUE constraint failed: users.username")),
            );
        }
        let count = self.users.len() as u64;
        if count >= i64::MAX as u64 {
            return Err(DomainError::Storage(String::from_str("no identifier left for a new user")));
        }
        let id = (count + 1) as i64;
        let record = StoredUser { id, username: String::from_str(username), password_hash: hash };
        let ghost old_state = self@;
        let ghost rec_view = record@;
        let mut grown: Vec<StoredUser> = Vec::new();
        assert(grown@.map_values(|u: StoredUser| u@) =~= Seq::<UserRecord>::empty());
        assert(state_wf(RepoState { entries: old_state.entries, users: grown@.map_values(|u: StoredUser| u@) }));
        std::mem::swap(&mut self.users, &mut grown);
        assert(grown@.map_values(|u: StoredUser| u@) == old_state.users);
        grown.push(record);
        assert(grown@.map_values(|u: StoredUser| u@) =~= old_state.users.push(rec_view));
        assert(state_wf(RepoState { entries: old_state.entries, users: old_state.users.push(rec_view) })) by {
            let us = old_state.users.push(rec_view);
            assert forall|i: int, j: int| 0 <= i < us.len() && 0 <= j < us.len() && i != j implies #[trigger] us[i].username != #[trigger] us[j].username by {
                if i == us.len() - 1 {
                    assert(old_state.users[j] == us[j]);
                } else if j == us.len() - 1 {
                    assert(old_state.users[i] == us[i]);
                }
            }
        }
        std::mem::swap(&mut self.users, &mut grown);
        assert(self@.users =~= after_store(old_state, username@, rec_view.password_hash).users);
        Ok(User { id, username: String::from_str(username) })
    }

    /// Registers a user under the next identifier, storing only a salted hash
    /// of the password. `InvalidData` exactly for an empty name; `Storage` when
    /// the name is taken, identifiers are used up or hashing fails, and then
    /// nothing changes. A fresh non-empty name with a password that can be
    /// hashed is always registered.
    pub fn create_user(&mut self, username: &str, password: &str) -> (r: Result<User, DomainError>)
        ensures
            state_wf(final(self)@),
            (r matches Err(e) && e is InvalidData) <==> username@.len() == 0,
            username@.len() > 0 && name_taken(old(self)@.users, username@) ==> (r matches Err(e)
                && e is Storage),
            username@.len() > 0 && !name_taken(old(self)@.users, username@) && old(self)@.users.len()
                < i64::MAX && password@.len() <= MAX_PASSWORD_CHARS ==> r is Ok,
            r is Err ==> final(self)@ == old(self)@,
            r matches Ok(u) ==> u.id == old(self)@.users.len() + 1 && u.username@ == username@
                && user_created(old(self)@, username@, password@, final(self)@),
    {
        proof {
            use_type_invariant(&*self);
        }
        if let Err(e) = validate_username(username) {
            return Err(e);
        }
        let hashed = hash_new_password(password);
        let ghost h = hashed;
        let r = self.store_user(username, hashed);
        proof {
            if r is Ok {
                let hv = h->Ok_0@;
                assert(final(self)@ == after_store(old(self)@, username@, hv));
                assert(stored_verdict(password@, hv) == Some(true));
            }
        }
        r
    }

    /// Checks a login: the matching user when the name exists and the password
    /// verifies against its stored hash; no match, alike, for an unknown name
    /// and for a wrong password; `Storage` when the stored hash is malformed.
    pub fn verify_user(&self, username: &str, password: &str) -> (r: Result<Option<User>, DomainError>)
        ensures
            state_wf(self@),
            login_result(self@, username@, password@) matches Some(a) ==> (r matches Ok(u)
                && opt_user_view(u) == a),
            login_result(self@, username@, password@) is None ==> (r matches Err(e)
                && e is Storage),
    {
        proof {
            use_type_invariant(self);
        }
        match self.find_user(username) {
            None => Ok(None),
            Some(k) => {
                let s = &self.users[k];
                assert(self@.users[k as int] == s@);
                proof {
                    let c = choose|c: int| 0 <= c < self@.users.len() && (#[trigger] self@.users[c]).username == username@;
                    assert(c == k);
                }
                let found = StoredUser {
                    id: s.id,
                    username: s.username.clone(),
                    password_hash: s.password_hash.clone(),
                };
                check_credentials(Some(found), password)
            },
        }
    }

    /// All user names, in ascending lexicographic order; no password material.
    pub fn list_users(&self) -> (r: Result<Vec<String>, DomainError>)
        ensures
            state_wf(self@),
            r matches Ok(v) && is_name_listing(self@.users, text_views(v@)),
    {
        proof {
            use_type_invariant(self);
        }
        let ghost users = self@.users;
        let mut res: Vec<String> = Vec::new();
        let mut i: usize = 0;
        while i < self.users.len()
            invariant
                i <= self.users@.len(),
                users == self.users@.map_values(|u: StoredUser| u@),
                state_wf(self@),
                users == self@.users,
                forall|a: int, b: int| 0 <= a < b < res@.len() ==> text_lt(#[trigger] text_views(res@)[a], #[trigger] text_views(res@)[b]),
                forall|k: int| 0 <= k < res@.len() ==> name_among(users, i as int, #[trigger] text_views(res@)[k]),
                forall|k: int| 0 <= k < i ==> text_views(res@).contains(#[trigger] users[k].username),
            decreases self.users@.len() - i,
        {
            let name = &self.users[i].username;
            assert(users[i as int].username == name@);
            let ghost old_res = text_views(res@);
            let mut p: usize = 0;
            while p < res.len() && compare_text(res[p].as_str(), name.as_str()) < 0
                invariant
                    p <= res@.len(),
                    old_res == text_views(res@),
                    forall|k: int| 0 <= k < p ==> text_lt(#[trigger] old_res[k], name@),
                decreases res@.len() - p,
            {
                assert(old_res[p as int] == res@[p as int]@);
                p = p + 1;
            }
            if p < res.len() {
                assert(old_res[p as int] == res@[p as int]@);
                assert(name_among(users, i as int, old_res[p as int]));
                let ghost c = choose|c: int| 0 <= c < i && users[c].username == old_res[p as int];
                assert(users[c].username != users[i as int].username);
                assert(text_lt(name@, old_res[p as int]));
            }
            res.insert(p, name.clone());
            let ghost new_res = text_views(res@);
            assert(new_res =~= old_res.insert(p as int, name@));
            assert forall|a: int, b: int| 0 <= a < b < new_res.len() implies text_lt(#[trigger] new_res[a], #[trigger] new_res[b]) by {
                if a < p && b < p {
                } else if a < p && b == p {
                } else if a < p && b > p {
                    assert(text_lt(old_res[a], name@));
                    assert(text_lt(name@, old_res[p as int]));
                    if b - 1 > p {
                        assert(text_lt(old_res[p as int], old_res[b - 1]));
                        lemma_text_lt_transitive(name@, old_res[p as int], old_res[b - 1]);
                    }
                    lemma_text_lt_transitive(old_res[a], name@, old_res[b - 1]);
                } else if a == p {
                    if b - 1 > p {
                        assert(text_lt(old_res[p as int], old_res[b - 1]));
                        lemma_text_lt_transitive(name@, old_res[p as int], old_res[b - 1]);
                    }
                } else {
                    assert(text_lt(old_res[a - 1], old_res[b - 1]));
                }
            }
            assert forall|k: int| 0 <= k < new_res.len() implies name_among(users, i + 1, #[trigger] new_res[k]) by {
                if k < p {
                    assert(name_among(users, i as int, old_res[k]));
                } else if k == p {
                    assert(users[i as int].username == new_res[k]);
                } else {
                    assert(name_among(users, i as int, old_res[k - 1]));
                }
            }
            assert forall|j: int| 0 <= j < i + 1 implies new_res.contains(#[trigger] users[j].username) by {
                if j == i {
                    assert(new_res[p as int] == users[j].username);
                } else {
                    let k = choose|k: int| 0 <= k < old_res.len() && old_res[k] == users[j].username;
                    if k < p {
                        assert(new_res[k] == users[j].username);
                    } else {
                        assert(new_res[k + 1] == users[j].username);
                    }
                }
            }
            i = i + 1;
        }
        assert forall|k: int| 0 <= k < text_views(res@).len() implies name_taken(users, #[trigger] text_views(res@)[k]) by {
            assert(name_among(users, i as int, text_views(res@)[k]));
            let c = choose|c: int| 0 <= c < i && users[c].username == text_views(res@)[k];
            assert(users[c].username == text_views(res@)[k]);
        }
        Ok(res)
    }
}

} // verus!
