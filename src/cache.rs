use vstd::prelude::*;

use crate::models::Report;
use crate::query::QueryType;

verus! {

/// Whether every entry of `m` sits under its own id.
pub open spec fn keyed(m: Map<i64, Report>) -> bool {
    forall|k: i64| m.contains_key(k) ==> (#[trigger] m[k]).id == k
}

/// The reports of `m` that `q` selects.
pub open spec fn selected(m: Map<i64, Report>, q: QueryType) -> Set<Report> {
    Set::new(|r: Report| m.contains_key(r.id) && m[r.id] == r && q.admits(r))
}

/// Every entry of the cache equals the store's entry under the same id.
pub open spec fn agrees(cache: Map<i64, Report>, store: Map<i64, Report>) -> bool {
    forall|k: i64| #[trigger] cache.contains_key(k) ==> store.contains_key(k) && store[k] == cache[k]
}

/// The reports that a query of `q` returns, from a cache holding `cache`,
/// when the store, if asked, answers `answer`.
pub open spec fn dispatched(cache: Map<i64, Report>, q: QueryType, answer: Set<Report>) -> Set<
    Report,
> {
    if selected(cache, q).is_empty() {
        answer
    } else {
        selected(cache, q)
    }
}

/// `m` after writing each of `rows` in turn, each one replacing the entry of its id.
pub open spec fn written(m: Map<i64, Report>, rows: Seq<Report>) -> Map<i64, Report>
    decreases rows.len(),
{
    if rows.len() == 0 {
        m
    } else {
        written(m, rows.drop_last()).insert(rows.last().id, rows.last())
    }
}

/// `m` after writing those of `rows` that are active, or all of them when
/// `all` holds.
pub open spec fn loaded(m: Map<i64, Report>, rows: Seq<Report>, all: bool) -> Map<i64, Report>
    decreases rows.len(),
{
    if rows.len() == 0 {
        m
    } else {
        let before = loaded(m, rows.drop_last(), all);
        if all || rows.last().active {
            before.insert(rows.last().id, rows.last())
        } else {
            before
        }
    }
}

/// No two of `rows` share an id.
pub open spec fn distinct_ids(rows: Seq<Report>) -> bool {
    forall|a: int, b: int| 0 <= a < b < rows.len() ==> rows[a].id != rows[b].id
}

/// The map from id to report that a sequence of entries with distinct ids
/// stands for.
pub open spec fn entry_map(s: Seq<Report>) -> Map<i64, Report> {
    Map::new(
        |k: i64| exists|i: int| 0 <= i < s.len() && s[i].id == k,
        |k: i64| s[choose|i: int| 0 <= i < s.len() && s[i].id == k],
    )
}

proof fn lemma_entry_map(s: Seq<Report>)
    requires
        distinct_ids(s),
    ensures
        keyed(entry_map(s)),
        forall|i: int|
            0 <= i < s.len() ==> #[trigger] entry_map(s).contains_key(s[i].id) && entry_map(s)[s[i].id]
                == s[i],
{
    assert forall|i: int| 0 <= i < s.len() implies #[trigger] entry_map(s).contains_key(s[i].id)
        && entry_map(s)[s[i].id] == s[i] by {
        let k = s[i].id;
        assert(exists|j: int| 0 <= j < s.len() && s[j].id == k);
        let j = choose|j: int| 0 <= j < s.len() && s[j].id == k;
        assert(j == i);
    }
    assert forall|k: i64| entry_map(s).contains_key(k) implies (#[trigger] entry_map(s)[k]).id == k by {
        let j = choose|j: int| 0 <= j < s.len() && s[j].id == k;
        assert(entry_map(s)[k] == s[j]);
    }
}

proof fn lemma_entry_map_update(s: Seq<Report>, i: int, r: Report)
    requires
        distinct_ids(s),
        0 <= i < s.len(),
        s[i].id == r.id,
    ensures
        distinct_ids(s.update(i, r)),
        entry_map(s.update(i, r)) == entry_map(s).insert(r.id, r),
{
    let t = s.update(i, r);
    assert(distinct_ids(t));
    lemma_entry_map(s);
    lemma_entry_map(t);
    assert forall|k: i64| #[trigger] entry_map(t).contains_key(k) == entry_map(s).insert(r.id, r).contains_key(k) by {
        if entry_map(t).contains_key(k) {
            let j = choose|j: int| 0 <= j < t.len() && t[j].id == k;
            assert(s[j].id == k);
        }
        if entry_map(s).contains_key(k) {
            let j = choose|j: int| 0 <= j < s.len() && s[j].id == k;
            assert(t[j].id == k);
        }
        if k == r.id {
            assert(t[i].id == k);
        }
    }
    assert forall|k: i64| #[trigger] entry_map(t).contains_key(k) implies entry_map(t)[k] == entry_map(s).insert(r.id, r)[k] by {
        let j = choose|j: int| 0 <= j < t.len() && t[j].id == k;
        assert(entry_map(t)[t[j].id] == t[j]);
        if j != i {
            assert(entry_map(s)[s[j].id] == s[j]);
        }
    }
    assert(entry_map(t) =~= entry_map(s).insert(r.id, r));
}

proof fn lemma_entry_map_push(s: Seq<Report>, r: Report)
    requires
        distinct_ids(s),
        forall|j: int| 0 <= j < s.len() ==> s[j].id != r.id,
    ensures
        distinct_ids(s.push(r)),
        entry_map(s.push(r)) == entry_map(s).insert(r.id, r),
{
    let t = s.push(r);
    assert(distinct_ids(t));
    lemma_entry_map(s);
    lemma_entry_map(t);
    assert(t[s.len() as int] == r);
    assert forall|k: i64| #[trigger] entry_map(t).contains_key(k) == entry_map(s).insert(r.id, r).contains_key(k) by {
        if entry_map(t).contains_key(k) {
            let j = choose|j: int| 0 <= j < t.len() && t[j].id == k;
            if j < s.len() {
                assert(s[j].id == k);
            }
        }
        if entry_map(s).contains_key(k) {
            let j = choose|j: int| 0 <= j < s.len() && s[j].id == k;
            assert(t[j].id == k);
        }
    }
    assert forall|k: i64| #[trigger] entry_map(t).contains_key(k) implies entry_map(t)[k] == entry_map(s).insert(r.id, r)[k] by {
        let j = choose|j: int| 0 <= j < t.len() && t[j].id == k;
        assert(entry_map(t)[t[j].id] == t[j]);
        if j < s.len() {
            assert(entry_map(s)[s[j].id] == s[j]);
        }
    }
    assert(entry_map(t) =~= entry_map(s).insert(r.id, r));
}

/// Writing reports that a map already holds leaves it as it is.
proof fn lemma_written_same(m: Map<i64, Report>, rows: Seq<Report>)
    requires
        forall|i: int| 0 <= i < rows.len() ==> m.contains_key(#[trigger] rows[i].id) && m[rows[i].id] == rows[i],
    ensures
        written(m, rows) == m,
    decreases rows.len(),
{
    if rows.len() > 0 {
        let last = rows.last();
        assert(rows[rows.len() - 1] == last);
        lemma_written_same(m, rows.drop_last());
        assert(m.insert(last.id, last) =~= m);
    }
}

/// What the cache makes of a query.
#[derive(Debug, PartialEq)]
pub enum QueryPlan {
    /// The cache holds matching reports: these are the answer.
    Served(Vec<Report>),
    /// No entry matches: the store must be asked, with this filter.
    AskStore(QueryType),
}

/// How a query of `q` on a cache holding `before` went: the cache is left
/// holding `after`; the matching entries are served when there are any, and
/// otherwise the store is asked with `q`.
pub open spec fn planned(
    before: Map<i64, Report>,
    after: Map<i64, Report>,
    q: QueryType,
    plan: QueryPlan,
) -> bool {
    &&& after == before
    &&& match plan {
        QueryPlan::Served(rows) => {
            &&& rows@.len() > 0
            &&& !selected(before, q).is_empty()
            &&& rows@.to_set() == selected(before, q)
            &&& distinct_ids(rows@)
        },
        QueryPlan::AskStore(f) => f == q && selected(before, q).is_empty(),
    }
}

/// A process-local mirror of the report table, keyed by id, with no
/// eviction and no bound.
pub struct ReportCache {
    entries: Vec<Report>,
}

impl View for ReportCache {
    type V = Map<i64, Report>;

    closed spec fn view(&self) -> Map<i64, Report> {
        entry_map(self.entries@)
    }
}

impl ReportCache {
    /// The entries carry distinct ids.
    pub closed spec fn wf(&self) -> bool {
        distinct_ids(self.entries@)
    }

    /// A well-formed cache is keyed by id.
    pub proof fn lemma_keyed(&self)
        requires
            self.wf(),
        ensures
            keyed(self@),
    {
        lemma_entry_map(self.entries@);
    }

    pub fn new() -> (c: ReportCache)
        ensures
            c.wf(),
            c@ == Map::<i64, Report>::empty(),
    {
        let c = ReportCache { entries: Vec::new() };
        assert(c@ =~= Map::<i64, Report>::empty());
        c
    }

    /// Inserts `r`, replacing wholesale any entry with the same id.
    pub fn insert(&mut self, r: Report)
        requires
            old(self).wf(),
        ensures
            final(self).wf(),
            final(self)@ == old(self)@.insert(r.id, r),
    {
        let ghost before = self.entries@;
        let mut i: usize = 0;
        while i < self.entries.len()
            invariant
                self.entries@ == before,
                old(self).entries@ == before,
                distinct_ids(before),
                0 <= i <= before.len(),
                forall|j: int| 0 <= j < i ==> before[j].id != r.id,
            decreases before.len() - i,
        {
            if self.entries[i].id == r.id {
                proof {
                    lemma_entry_map_update(before, i as int, r);
                }
                self.entries.set(i, r);
                assert(self.entries@ == before.update(i as int, r));
                return;
            }
            i += 1;
        }
        proof {
            lemma_entry_map_push(before, r);
        }
        self.entries.push(r);
    }

    /// The reports held that `q` selects, each once.
    pub fn matching(&self, q: &QueryType) -> (rows: Vec<Report>)
        requires
            self.wf(),
        ensures
            rows@.to_set() == selected(self@, *q),
            distinct_ids(rows@),
    {
        let mut rows: Vec<Report> = Vec::new();
        let mut i: usize = 0;
        while i < self.entries.len()
            invariant
                self.wf(),
                0 <= i <= self.entries@.len(),
                distinct_ids(rows@),
                forall|a: int|
                    #![trigger rows@[a]]
                    0 <= a < rows@.len() ==> exists|j: int|
                        0 <= j < i && #[trigger] self.entries@[j] == rows@[a],
                forall|r: Report|
                    rows@.contains(r) <==> (exists|j: int|
                        0 <= j < i && #[trigger] self.entries@[j] == r && q.admits(r)),
            decreases self.entries@.len() - i,
        {
            let e = &self.entries[i];
            if q.accepts(e) {
                let ghost before = rows@;
                rows.push(e.clone());
                proof {
                    assert(rows@ == before.push(self.entries@[i as int]));
                    assert forall|a: int, b: int| 0 <= a < b < rows@.len() implies rows@[a].id
                        != rows@[b].id by {
                        if b == before.len() {
                            let j = choose|j: int| 0 <= j < i && self.entries@[j] == before[a];
                            assert(self.entries@[j] == rows@[a]);
                        }
                    }
                    assert forall|a: int| #![trigger rows@[a]] 0 <= a < rows@.len() implies exists|j: int|
                        0 <= j < i + 1 && #[trigger] self.entries@[j] == rows@[a] by {
                        if a == before.len() {
                            assert(self.entries@[i as int] == rows@[a]);
                        } else {
                            assert(before[a] == rows@[a]);
                        }
                    }
                    assert forall|r: Report| rows@.contains(r) <==> (exists|j: int|
                        0 <= j < i + 1 && #[trigger] self.entries@[j] == r && q.admits(r)) by {
                        if rows@.contains(r) {
                            let a = choose|a: int| 0 <= a < rows@.len() && rows@[a] == r;
                            if a < before.len() {
                                assert(before.contains(r));
                            } else {
                                assert(self.entries@[i as int] == r);
                            }
                        }
                        if exists|j: int| 0 <= j < i + 1 && #[trigger] self.entries@[j] == r && q.admits(r) {
                            let j = choose|j: int| 0 <= j < i + 1 && #[trigger] self.entries@[j] == r && q.admits(r);
                            if j < i {
                                assert(before.contains(r));
                                let a = choose|a: int| 0 <= a < before.len() && before[a] == r;
                                assert(rows@[a] == r);
                            } else {
                                assert(rows@[before.len() as int] == r);
                            }
                        }
                    }
                }
            } else {
                proof {
                    assert forall|r: Report| rows@.contains(r) <==> (exists|j: int|
                        0 <= j < i + 1 && #[trigger] self.entries@[j] == r && q.admits(r)) by {
                        if exists|j: int| 0 <= j < i + 1 && #[trigger] self.entries@[j] == r && q.admits(r) {
                            let j = choose|j: int| 0 <= j < i + 1 && #[trigger] self.entries@[j] == r && q.admits(r);
                            assert(j < i);
                        }
                    }
                }
            }
            i += 1;
        }
        proof {
            lemma_entry_map(self.entries@);
            assert forall|r: Report| #[trigger] rows@.to_set().contains(r) == selected(self@, *q).contains(r) by {
                if selected(self@, *q).contains(r) {
                    let j = choose|j: int| 0 <= j < self.entries@.len() && self.entries@[j].id == r.id;
                    assert(self.entries@[j] == r);
                }
            }
            assert(rows@.to_set() =~= selected(self@, *q));
        }
        rows
    }

    /// Writes each of `rows` in turn, each replacing the entry of its id.
    pub fn absorb(&mut self, rows: &Vec<Report>)
        requires
            old(self).wf(),
        ensures
            final(self).wf(),
            final(self)@ == written(old(self)@, rows@),
    {
        let mut i: usize = 0;
        while i < rows.len()
            invariant
                self.wf(),
                0 <= i <= rows@.len(),
                self@ == written(old(self)@, rows@.take(i as int)),
            decreases rows@.len() - i,
        {
            self.insert(rows[i].clone());
            proof {
                assert(rows@.take(i + 1).drop_last() == rows@.take(i as int));
            }
            i += 1;
        }
        assert(rows@.take(rows@.len() as int) == rows@);
    }

    /// Fills the cache from rows of the store: all of them when `deactive`
    /// holds, else only the active ones.
    pub fn load(&mut self, rows: &Vec<Report>, deactive: bool)
        requires
            old(self).wf(),
        ensures
            final(self).wf(),
            final(self)@ == loaded(old(self)@, rows@, deactive),
    {
        let mut i: usize = 0;
        while i < rows.len()
            invariant
                self.wf(),
                0 <= i <= rows@.len(),
                self@ == loaded(old(self)@, rows@.take(i as int), deactive),
            decreases rows@.len() - i,
        {
            if deactive || rows[i].active {
                self.insert(rows[i].clone());
            }
            proof {
                assert(rows@.take(i + 1).drop_last() == rows@.take(i as int));
            }
            i += 1;
        }
        assert(rows@.take(rows@.len() as int) == rows@);
    }

    /// The cache side of a query: the matching entries when there are any
    /// (each written back), else a request to consult the store. An empty
    /// match is never taken for an answer.
    pub fn query_report(&mut self, q: &QueryType) -> (plan: QueryPlan)
        requires
            old(self).wf(),
        ensures
            final(self).wf(),
            planned(old(self)@, final(self)@, *q, plan),
    {
        let rows = self.matching(q);
        if rows.len() == 0 {
            proof {
                assert(rows@.to_set() =~= Set::<Report>::empty());
            }
            QueryPlan::AskStore(q.clone())
        } else {
            proof {
                lemma_entry_map(self.entries@);
                assert forall|i: int| 0 <= i < rows@.len() implies self@.contains_key(
                    #[trigger] rows@[i].id,
                ) && self@[rows@[i].id] == rows@[i] by {
                    assert(rows@.to_set().contains(rows@[i]));
                }
                lemma_written_same(self@, rows@);
                assert(selected(self@, *q).contains(rows@[0]));
            }
            self.absorb(&rows);
            QueryPlan::Served(rows)
        }
    }

    /// The store side of a query: every row that the store returned is
    /// written into the cache, and the rows are handed back as they came.
    pub fn store_answer(&mut self, rows: Vec<Report>) -> (r: Vec<Report>)
        requires
            old(self).wf(),
        ensures
            final(self).wf(),
            final(self)@ == written(old(self)@, rows@),
            r@ == rows@,
    {
        self.absorb(&rows);
        rows
    }
}

} // verus!
