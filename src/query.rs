use vstd::prelude::*;

use crate::date::iso_text;
use crate::models::{EntryFilter, FilterView};
use crate::text::text_views;

verus! {

/// The columns of an entry row, in the order a decoder reads them.
pub const SELECT_ENTRIES: &'static str = "SELECT id, kind, amount_cents, category, note, occurred_on FROM entries";

/// The lower date bound, inclusive.
pub const COND_FROM: &'static str = "occurred_on >= ?";

/// The upper date bound, inclusive.
pub const COND_TO: &'static str = "occurred_on <= ?";

/// The exact category match.
pub const COND_CATEGORY: &'static str = "category = ?";

/// Newest first, and among entries of one day the latest inserted first.
pub const ORDER_NEWEST_FIRST: &'static str = " ORDER BY occurred_on DESC, id DESC";

/// The predicates that the filter `f` imposes, in order.
pub open spec fn conditions(f: FilterView) -> Seq<Seq<char>> {
    (if f.from is Some { seq![COND_FROM@] } else { Seq::empty() }) + (if f.to is Some {
        seq![COND_TO@]
    } else {
        Seq::empty()
    }) + (if f.category is Some { seq![COND_CATEGORY@] } else { Seq::empty() })
}

/// The parameters bound to the predicates of `f`, in the same order.
pub open spec fn parameters(f: FilterView) -> Seq<Seq<char>> {
    (match f.from {
        Some(d) => seq![iso_text(d)],
        None => Seq::empty(),
    }) + (match f.to {
        Some(d) => seq![iso_text(d)],
        None => Seq::empty(),
    }) + (match f.category {
        Some(c) => seq![c],
        None => Seq::empty(),
    })
}

/// The parts joined with `sep` between each two.
pub open spec fn joined(parts: Seq<Seq<char>>, sep: Seq<char>) -> Seq<char>
    decreases parts.len(),
{
    if parts.len() == 0 {
        Seq::empty()
    } else if parts.len() == 1 {
        parts[0]
    } else {
        joined(parts.drop_last(), sep) + sep + parts.last()
    }
}

/// The query text for `f`: every entry column, the predicates of `f`
/// conjoined under `WHERE` (no `WHERE` when there is none), newest first.
pub open spec fn list_sql(f: FilterView) -> Seq<char> {
    SELECT_ENTRIES@ + (if conditions(f).len() > 0 {
        " WHERE "@ + joined(conditions(f), " AND "@)
    } else {
        Seq::empty()
    }) + ORDER_NEWEST_FIRST@
}

/// The dates of `f` can be written as `YYYY-MM-DD`.
pub open spec fn filter_dates_valid(f: FilterView) -> bool {
    (f.from matches Some(d) ==> d.is_valid()) && (f.to matches Some(d) ==> d.is_valid())
}

spec fn str_views(s: Seq<&'static str>) -> Seq<Seq<char>> {
    s.map_values(|t: &'static str| t@)
}

/// The query text and its parameters that list the entries `filter` accepts.
pub fn list_query(filter: &EntryFilter) -> (r: (String, Vec<String>))
    requires
        filter_dates_valid(filter@),
    ensures
        r.0@ == list_sql(filter@),
        text_views(r.1@) == parameters(filter@),
{
    let mut conds: Vec<&'static str> = Vec::new();
    let mut params: Vec<String> = Vec::new();
    if let Some(d) = &filter.from {
        conds.push(COND_FROM);
        params.push(d.to_iso());
    }
    if let Some(d) = &filter.to {
        conds.push(COND_TO);
        params.push(d.to_iso());
    }
    if let Some(c) = &filter.category {
        conds.push(COND_CATEGORY);
        params.push(c.clone());
    }
    let ghost cs = conditions(filter@);
    assert(str_views(conds@) =~= cs);
    assert(text_views(params@) =~= parameters(filter@));
    let mut q = String::from_str(SELECT_ENTRIES);
    if conds.len() > 0 {
        q.append(" WHERE ");
        let ghost head = q@;
        let mut k: usize = 0;
        while k < conds.len()
            invariant
                k <= conds@.len(),
                str_views(conds@) == cs,
                q@ == head + joined(cs.subrange(0, k as int), " AND "@),
            decreases conds@.len() - k,
        {
            let ghost prev = cs.subrange(0, k as int);
            assert(cs.subrange(0, k + 1).drop_last() =~= prev);
            assert(cs[k as int] == conds@[k as int]@);
            if k > 0 {
                q.append(" AND ");
            } else {
                assert(prev =~= Seq::<Seq<char>>::empty());
            }
            q.append(conds[k]);
            assert(q@ =~= head + joined(cs.subrange(0, k + 1), " AND "@));
            k = k + 1;
        }
        assert(cs.subrange(0, conds@.len() as int) =~= cs);
    }
    q.append(ORDER_NEWEST_FIRST);
    (q, params)
}

} // verus!
