use vstd::prelude::*;

use crate::cache::{agrees, dispatched, distinct_ids, keyed, selected};
use crate::error::Error;
use crate::handler::{created, deactivation, submission};
use crate::models::{Report, ReportDeactivateRequest, ReportRequest};
use crate::query::QueryType;

verus! {

/// A lookup by id in a keyed map selects the entry under that id, if any.
pub proof fn lemma_by_id(m: Map<i64, Report>, x: i64)
    requires
        keyed(m),
    ensures
        m.contains_key(x) ==> selected(m, QueryType::ById(x)) == set![m[x]],
        !m.contains_key(x) ==> selected(m, QueryType::ById(x)) == Set::<Report>::empty(),
{
    if m.contains_key(x) {
        assert(selected(m, QueryType::ById(x)) =~= set![m[x]]);
    } else {
        assert(selected(m, QueryType::ById(x)) =~= Set::<Report>::empty());
    }
}

/// A submitted report is active, carries no deactivation fields, keeps the
/// id that the store assigned, and, the id being new to the store, no other
/// stored report shares it.
pub proof fn lemma_submission(req: ReportRequest, now: i64, id: i64, store: Map<i64, Report>)
    requires
        keyed(store),
        !store.contains_key(id),
    ensures
        ({
            let r = created(submission(req, now), id);
            &&& r.active
            &&& r.handler is None
            &&& r.handle_ts is None
            &&& r.id == id
            &&& r.well_formed()
            &&& forall|k: i64| #[trigger] store.contains_key(k) ==> store[k].id != r.id
            &&& keyed(store.insert(id, r))
        }),
{
}

/// Deactivating twice: the first call closes an active report, and the
/// second, on the report that the first produced, is refused with
/// `AlreadyDeactivated`, so nothing is written over the first result.
pub proof fn lemma_deactivate_twice(
    current: Report,
    first: ReportDeactivateRequest,
    second: ReportDeactivateRequest,
    t1: i64,
    t2: i64,
)
    requires
        current.active,
        current.id == first.id,
        second.id == first.id,
    ensures
        deactivation(Some(current), first, t1) matches Ok(r1) && {
            &&& !r1.active
            &&& r1.well_formed()
            &&& r1.id == current.id
            &&& r1.handler == Some(first.operator)
            &&& r1.handle_ts matches Some(h) && h >= r1.timestamp
            &&& deactivation(Some(r1), second, t2) == Err::<Report, Error>(
                Error::AlreadyDeactivated,
            )
        },
{
}

/// Read after write: once a mutation has written `r` to the store and to
/// the cache, a lookup of its id returns exactly `r`, whether the cache
/// serves it or, from a cache rebuilt empty, the store does; and the cache
/// still agrees with the store.
pub proof fn lemma_read_after_write(
    cache: Map<i64, Report>,
    store: Map<i64, Report>,
    r: Report,
    answer: Set<Report>,
)
    requires
        keyed(cache),
        keyed(store),
        agrees(cache, store),
        answer == selected(store.insert(r.id, r), QueryType::ById(r.id)),
    ensures
        agrees(cache.insert(r.id, r), store.insert(r.id, r)),
        dispatched(cache.insert(r.id, r), QueryType::ById(r.id), answer) == set![r],
        dispatched(Map::<i64, Report>::empty(), QueryType::ById(r.id), answer) == set![r],
{
    lemma_by_id(cache.insert(r.id, r), r.id);
    lemma_by_id(store.insert(r.id, r), r.id);
    assert(selected(Map::<i64, Report>::empty(), QueryType::ById(r.id)) =~= Set::<Report>::empty());
}

/// Rows with distinct ids that hold exactly the report `r` are `[r]`: a
/// lookup by id that the cache serves yields that one record.
pub proof fn lemma_single_row(rows: Seq<Report>, r: Report)
    requires
        rows.to_set() == set![r],
        distinct_ids(rows),
    ensures
        rows == seq![r],
{
    assert(rows.to_set().contains(r));
    assert(rows.len() >= 1);
    assert(rows.to_set().contains(rows[0]));
    if rows.len() >= 2 {
        assert(rows.to_set().contains(rows[1]));
        assert(rows[0].id != rows[1].id);
    }
    assert(rows =~= seq![r]);
}

/// A query returns exactly the stored reports that its filter selects, so
/// long as the cache agrees with the store and either mirrors all of it or
/// holds nothing that the filter selects.
pub proof fn lemma_query_exact(
    cache: Map<i64, Report>,
    store: Map<i64, Report>,
    q: QueryType,
    answer: Set<Report>,
)
    requires
        agrees(cache, store),
        cache.dom() == store.dom() || selected(cache, q).is_empty(),
        answer == selected(store, q),
    ensures
        dispatched(cache, q, answer) == selected(store, q),
{
    if !selected(cache, q).is_empty() {
        assert(selected(cache, q) =~= selected(store, q));
    }
}

/// A filter that selects nothing in the cache is answered by the store.
pub proof fn lemma_empty_asks_store(cache: Map<i64, Report>, q: QueryType, answer: Set<Report>)
    requires
        selected(cache, q).is_empty(),
    ensures
        dispatched(cache, q, answer) == answer,
{
}

} // verus!
