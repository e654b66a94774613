use vstd::prelude::*;

use crate::date::{date_le, date_lt, Date};
use crate::credentials::stored_verdict;
use crate::memory::{
    after_add, after_store, is_listing, login_result, name_taken, state_wf, user_created, EntryView, RepoState,
};
use crate::models::{filter_accepts, record_is_valid, EntryRecord, FilterView};

verus! {

/// After a valid record is added, a listing with no constraint holds an entry
/// equal to the record under the identifier it was given.
pub proof fn law_added_entry_is_listed(
    before: RepoState,
    rec: EntryRecord,
    listing: Seq<EntryView>,
)
    requires
        state_wf(before),
        record_is_valid(rec),
        is_listing(
            after_add(before, rec).entries,
            FilterView { from: None, to: None, category: None },
            listing,
        ),
    ensures
        listing.contains(((before.entries.len() + 1) as i64, rec)),
{
    let after = after_add(before, rec).entries;
    let k = before.entries.len() as int;
    let f = FilterView { from: None, to: None, category: None };
    assert(after[k] == ((before.entries.len() + 1) as i64, rec));
    assert(filter_accepts(f, after[k].1));
}

/// With entries dated `d1 < d2 < d3`, a listing from `d1` to `d2` holds no
/// entry dated `d3`, and holds every entry dated exactly `d1` or `d2`.
pub proof fn law_date_bounds_inclusive(
    stored: Seq<EntryView>,
    d1: Date,
    d2: Date,
    d3: Date,
    listing: Seq<EntryView>,
)
    requires
        date_lt(d1, d2),
        date_lt(d2, d3),
        is_listing(stored, FilterView { from: Some(d1), to: Some(d2), category: None }, listing),
    ensures
        forall|k: int| 0 <= k < listing.len() ==> (#[trigger] listing[k]).1.occurred_on != d3,
        forall|k: int|
            0 <= k < stored.len() && ((#[trigger] stored[k]).1.occurred_on == d1
                || stored[k].1.occurred_on == d2) ==> listing.contains(stored[k]),
{
    assert forall|k: int| 0 <= k < listing.len() implies (#[trigger] listing[k]).1.occurred_on != d3 by {
        assert(date_le(listing[k].1.occurred_on, d2));
    }
}

/// A listing filtered by a category holds only entries of that category,
/// whatever mixture of categories is stored.
pub proof fn law_category_filter_exact(
    stored: Seq<EntryView>,
    category: Seq<char>,
    listing: Seq<EntryView>,
)
    requires
        is_listing(stored, FilterView { from: None, to: None, category: Some(category) }, listing),
    ensures
        forall|k: int| 0 <= k < listing.len() ==> (#[trigger] listing[k]).1.category == category,
{
}

/// A user just created with a password verifies with that password: the
/// login yields that user.
pub proof fn law_created_user_verifies(
    before: RepoState,
    name: Seq<char>,
    password: Seq<char>,
    after: RepoState,
)
    requires
        state_wf(before),
        state_wf(after),
        user_created(before, name, password, after),
    ensures
        login_result(after, name, password) == Some(Some(((before.users.len() + 1) as i64, name))),
{
    let hash = choose|hash: Seq<char>|
        after == after_store(before, name, hash) && stored_verdict(password, hash) == Some(true);
    let last = after.users.len() - 1;
    assert(after.users[last].username == name);
    assert(name_taken(after.users, name));
    let k = choose|k: int| 0 <= k < after.users.len() && (#[trigger] after.users[k]).username == name;
    assert(k == last);
}

/// A login with an unknown name and a login with a wrong password give the
/// same answer: no match.
pub proof fn law_no_match_indistinguishable(
    s: RepoState,
    unknown: Seq<char>,
    known: Seq<char>,
    wrong_password: Seq<char>,
    any_password: Seq<char>,
)
    requires
        state_wf(s),
        !name_taken(s.users, unknown),
        forall|k: int|
            0 <= k < s.users.len() && (#[trigger] s.users[k]).username == known ==> stored_verdict(
                wrong_password,
                s.users[k].password_hash,
            ) == Some(false),
    ensures
        login_result(s, unknown, any_password) == Some(None::<(i64, Seq<char>)>),
        name_taken(s.users, known) ==> login_result(s, known, wrong_password) == Some(
            None::<(i64, Seq<char>)>,
        ),
{
}

} // verus!
