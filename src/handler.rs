use vstd::prelude::*;

use crate::cache::{keyed, loaded, planned, written, QueryPlan, ReportCache};
use crate::error::{Error, StoreError};
use crate::models::{NewReport, Report, ReportDeactivateRequest, ReportQuery, ReportRequest};
use crate::query::QueryType;
use crate::transporter::Next;

verus! {

/// Whether `c` is an ASCII decimal digit.
pub open spec fn is_digit(c: char) -> bool {
    '0' <= c && c <= '9'
}

/// One or more decimal digits.
pub open spec fn all_digits(s: Seq<char>) -> bool {
    s.len() > 0 && forall|i: int| 0 <= i < s.len() ==> is_digit(#[trigger] s[i])
}

/// The number that a run of decimal digits writes.
pub open spec fn digits_value(s: Seq<char>) -> int
    decreases s.len(),
{
    if s.len() == 0 {
        0
    } else {
        10 * digits_value(s.drop_last()) + (s.last() as int - '0' as int)
    }
}

/// The integer that `s` writes in decimal: an optional `+` or `-`, then one
/// or more digits.
pub open spec fn decimal_value(s: Seq<char>) -> Option<int> {
    if s.len() > 0 && s[0] == '-' && all_digits(s.skip(1)) {
        Some(-digits_value(s.skip(1)))
    } else if s.len() > 0 && s[0] == '+' && all_digits(s.skip(1)) {
        Some(digits_value(s.skip(1)))
    } else if all_digits(s) {
        Some(digits_value(s))
    } else {
        None
    }
}

/// The `i64` that `s` writes in decimal, if it writes one in range.
pub open spec fn parsed_i64(s: Seq<char>) -> Option<i64> {
    match decimal_value(s) {
        Some(v) => if i64::MIN <= v <= i64::MAX {
            Some(v as i64)
        } else {
            None
        },
        None => None,
    }
}

/// Relies on `str::parse::<i64>` (`i64::from_str`): it accepts an optional
/// `+` or `-` followed by one or more ASCII digits whose value fits in an
/// `i64`, and rejects everything else.
#[verifier::external_body]
fn parse_i64(s: &str) -> (r: Option<i64>)
    ensures
        r == parsed_i64(s@),
{
    s.parse::<i64>().ok()
}

/// Relies on `chrono::Utc::now` and `DateTime::timestamp`: the current time
/// in whole seconds since the Unix epoch. `Utc::now` panics on a clock set
/// before the epoch, so a value that comes back is never negative.
#[verifier::external_body]
fn unix_now() -> (t: i64)
    ensures
        t >= 0,
{
    chrono::Utc::now().timestamp()
}

/// The row that `req` submitted at time `now` inserts: active, created at
/// `now`, with no tags when its tag text is empty.
pub open spec fn submission(req: ReportRequest, now: i64) -> NewReport {
    NewReport {
        active: true,
        timestamp: now,
        reporter: req.reporter,
        reported: req.reported,
        description: req.desc,
        tags: if req.tags@.len() == 0 {
            None
        } else {
            Some(req.tags)
        },
    }
}

/// The report that inserting `new` under the id `id` yields.
pub open spec fn created(new: NewReport, id: i64) -> Report {
    Report {
        id,
        active: new.active,
        timestamp: new.timestamp,
        reporter: new.reporter,
        reported: new.reported,
        handler: None,
        handle_ts: None,
        comment: None,
        description: new.description,
        tags: new.tags,
    }
}

/// The deactivation time of a report created at `created_at`, closed at
/// `now`: never earlier than its creation.
pub open spec fn handled_at(created_at: i64, now: i64) -> i64 {
    if now >= created_at {
        now
    } else {
        created_at
    }
}

/// `current` closed by `req` at time `now`: inactive, handled by the
/// operator, with the request's comment when it has one.
pub open spec fn deactivated(current: Report, req: ReportDeactivateRequest, now: i64) -> Report {
    Report {
        active: false,
        handler: Some(req.operator),
        handle_ts: Some(handled_at(current.timestamp, now)),
        comment: match req.comment {
            Some(c) => Some(c),
            None => current.comment,
        },
        ..current
    }
}

/// The outcome of deactivating, by `req` at time `now`, the report that the
/// store holds under `req.id` (`current`, if any).
pub open spec fn deactivation(
    current: Option<Report>,
    req: ReportDeactivateRequest,
    now: i64,
) -> Result<Report, Error> {
    match current {
        Some(c) => if c.id != req.id {
            Err(Error::NotFound)
        } else if !c.active {
            Err(Error::AlreadyDeactivated)
        } else {
            Ok(deactivated(c, req, now))
        },
        None => Err(Error::NotFound),
    }
}

/// Owns the cache and makes every decision of the report lifecycle; the
/// store and the subscribers are reached by the caller, which hands each
/// outcome back.
pub struct ReportHandler {
    cache: ReportCache,
}

impl ReportHandler {
    pub closed spec fn wf(&self) -> bool {
        self.cache.wf()
    }

    /// What the cache holds.
    pub closed spec fn cached(&self) -> Map<i64, Report> {
        self.cache@
    }

    /// The cache holds each report under its own id.
    pub proof fn lemma_keyed(&self)
        requires
            self.wf(),
        ensures
            keyed(self.cached()),
    {
        self.cache.lemma_keyed();
    }

    /// A handler with an empty cache.
    pub fn new() -> (h: ReportHandler)
        ensures
            h.wf(),
            h.cached() == Map::<i64, Report>::empty(),
    {
        ReportHandler { cache: ReportCache::new() }
    }

    pub fn cache(&self) -> (c: &ReportCache)
        ensures
            c@ == self.cached(),
            c.wf() == self.wf(),
    {
        &self.cache
    }

    /// Fills the cache from rows of the store: all of them when `deactive`
    /// holds, else only the active ones.
    pub fn load_to_cache(&mut self, rows: &Vec<Report>, deactive: bool)
        requires
            old(self).wf(),
        ensures
            final(self).wf(),
            final(self).cached() == loaded(old(self).cached(), rows@, deactive),
    {
        self.cache.load(rows, deactive);
    }

    /// The row that `req`, submitted at time `now`, inserts.
    pub fn new_report_at(req: &ReportRequest, now: i64) -> (n: NewReport)
        ensures
            n == submission(*req, now),
    {
        let tags = if req.tags.as_str().is_empty() {
            None
        } else {
            Some(req.tags.clone())
        };
        NewReport {
            active: true,
            timestamp: now,
            reporter: req.reporter.clone(),
            reported: req.reported.clone(),
            description: req.desc.clone(),
            tags,
        }
    }

    /// The row that `req`, submitted now, inserts.
    pub fn new_report(req: &ReportRequest) -> (n: NewReport)
        ensures
            n.timestamp >= 0,
            n == submission(*req, n.timestamp),
    {
        let now = unix_now();
        Self::new_report_at(req, now)
    }

    /// Takes the outcome of inserting `new` into the store. On success the
    /// report, with the id that the store assigned, is cached and returned for
    /// broadcasting; on failure nothing changes.
    pub fn submit_report(&mut self, new: NewReport, stored: Result<i64, StoreError>) -> (r: Result<
        Report,
        Error,
    >)
        requires
            old(self).wf(),
        ensures
            final(self).wf(),
            match stored {
                Ok(id) => {
                    &&& r == Ok::<Report, Error>(created(new, id))
                    &&& final(self).cached() == old(self).cached().insert(id, created(new, id))
                },
                Err(_) => {
                    &&& r == Err::<Report, Error>(Error::DatabaseFailed)
                    &&& final(self).cached() == old(self).cached()
                },
            },
    {
        match stored {
            Ok(id) => {
                let rep = Report {
                    id,
                    active: new.active,
                    timestamp: new.timestamp,
                    reporter: new.reporter,
                    reported: new.reported,
                    handler: None,
                    handle_ts: None,
                    comment: None,
                    description: new.description,
                    tags: new.tags,
                };
                self.cache.insert(rep.clone());
                Ok(rep)
            },
            Err(_) => Err(Error::DatabaseFailed),
        }
    }

    /// The row that `req` turns `current` (what the store holds under
    /// `req.id`, if anything) into at time `now`, or why it cannot.
    pub fn deactivation_at(current: Option<Report>, req: &ReportDeactivateRequest, now: i64) -> (r:
        Result<Report, Error>)
        ensures
            r == deactivation(current, *req, now),
    {
        match current {
            Some(c) => {
                if c.id != req.id {
                    Err(Error::NotFound)
                } else if !c.active {
                    Err(Error::AlreadyDeactivated)
                } else {
                    let handle_ts = if now >= c.timestamp {
                        now
                    } else {
                        c.timestamp
                    };
                    let comment = match &req.comment {
                        Some(t) => Some(t.clone()),
                        None => c.comment,
                    };
                    Ok(
                        Report {
                            active: false,
                            handler: Some(req.operator.clone()),
                            handle_ts: Some(handle_ts),
                            comment,
                            ..c
                        },
                    )
                }
            },
            None => Err(Error::NotFound),
        }
    }

    /// As `deactivation_at`, at the current time.
    pub fn deactivation(current: Option<Report>, req: &ReportDeactivateRequest) -> (r: Result<
        Report,
        Error,
    >)
        ensures
            exists|now: i64| now >= 0 && r == deactivation(current, *req, now),
    {
        let now = unix_now();
        Self::deactivation_at(current, req, now)
    }

    /// Takes the outcome of writing `updated` to the store. On success the
    /// cache entry is overwritten and the report returned for broadcasting; on
    /// failure nothing changes.
    pub fn deactivate_report(&mut self, updated: Report, stored: Result<(), StoreError>) -> (r:
        Result<Report, Error>)
        requires
            old(self).wf(),
        ensures
            final(self).wf(),
            match stored {
                Ok(_) => {
                    &&& r == Ok::<Report, Error>(updated)
                    &&& final(self).cached() == old(self).cached().insert(updated.id, updated)
                },
                Err(_) => {
                    &&& r == Err::<Report, Error>(Error::DatabaseFailed)
                    &&& final(self).cached() == old(self).cached()
                },
            },
    {
        match stored {
            Ok(_) => {
                self.cache.insert(updated.clone());
                Ok(updated)
            },
            Err(_) => Err(Error::DatabaseFailed),
        }
    }

    /// The result of a committed mutation once its broadcast has ended: the
    /// report, or `TransportError` when a send failed. The store write stands
    /// either way.
    pub fn conclude(report: Report, broadcast: Next) -> (r: Result<Report, Error>)
        requires
            !(broadcast is Contact),
        ensures
            broadcast == Next::Done ==> r == Ok::<Report, Error>(report),
            broadcast == Next::Failed ==> r == Err::<Report, Error>(Error::TransportError),
    {
        match broadcast {
            Next::Failed => Err(Error::TransportError),
            _ => Ok(report),
        }
    }

    /// Dispatches a query to the cache: its matching entries, or a request to
    /// ask the store.
    pub fn query(&mut self, q: &QueryType) -> (plan: QueryPlan)
        requires
            old(self).wf(),
        ensures
            final(self).wf(),
            planned(old(self).cached(), final(self).cached(), *q, plan),
    {
        self.cache.query_report(q)
    }

    /// Takes the store's answer to a query that the cache could not serve:
    /// every row returned is cached and handed back.
    pub fn store_answer(&mut self, answer: Result<Vec<Report>, StoreError>) -> (r: Result<
        Vec<Report>,
        Error,
    >)
        requires
            old(self).wf(),
        ensures
            final(self).wf(),
            match answer {
                Ok(rows) => {
                    &&& r matches Ok(out) && out@ == rows@
                    &&& final(self).cached() == written(old(self).cached(), rows@)
                },
                Err(_) => {
                    &&& r == Err::<Vec<Report>, Error>(Error::DatabaseFailed)
                    &&& final(self).cached() == old(self).cached()
                },
            },
    {
        match answer {
            Ok(rows) => Ok(self.cache.store_answer(rows)),
            Err(_) => Err(Error::DatabaseFailed),
        }
    }

    pub fn query_all_reports(&mut self) -> (plan: QueryPlan)
        requires
            old(self).wf(),
        ensures
            final(self).wf(),
            planned(old(self).cached(), final(self).cached(), QueryType::ALL, plan),
    {
        self.query(&QueryType::ALL)
    }

    pub fn query_reports_by_reporter(&mut self, query: ReportQuery) -> (plan: QueryPlan)
        requires
            old(self).wf(),
        ensures
            final(self).wf(),
            planned(old(self).cached(), final(self).cached(), QueryType::ByReporter(query.query), plan),
    {
        self.query(&QueryType::ByReporter(query.query))
    }

    pub fn query_reports_by_reported(&mut self, query: ReportQuery) -> (plan: QueryPlan)
        requires
            old(self).wf(),
        ensures
            final(self).wf(),
            planned(old(self).cached(), final(self).cached(), QueryType::ByReported(query.query), plan),
    {
        self.query(&QueryType::ByReported(query.query))
    }

    /// Fails with `InvalidTimestamp`, leaving the cache alone, when the query
    /// text is not a decimal `i64`.
    pub fn query_reports_by_timestamp(&mut self, query: ReportQuery) -> (r: Result<QueryPlan, Error>)
        requires
            old(self).wf(),
        ensures
            final(self).wf(),
            match parsed_i64(query.query@) {
                Some(t) => r matches Ok(plan) && planned(
                    old(self).cached(),
                    final(self).cached(),
                    QueryType::ByTimestamp(t),
                    plan,
                ),
                None => r == Err::<QueryPlan, Error>(Error::InvalidTimestamp) && final(self).cached()
                    == old(self).cached(),
            },
    {
        match parse_i64(query.query.as_str()) {
            Some(t) => Ok(self.query(&QueryType::ByTimestamp(t))),
            None => Err(Error::InvalidTimestamp),
        }
    }

    pub fn query_reports_by_id(&mut self, query: ReportQuery) -> (plan: QueryPlan)
        requires
            old(self).wf(),
        ensures
            final(self).wf(),
            planned(old(self).cached(), final(self).cached(), QueryType::ById(query.id), plan),
    {
        self.query(&QueryType::ById(query.id))
    }

    pub fn query_reports_by_handler(&mut self, query: ReportQuery) -> (plan: QueryPlan)
        requires
            old(self).wf(),
        ensures
            final(self).wf(),
            planned(old(self).cached(), final(self).cached(), QueryType::ByHandler(query.query), plan),
    {
        self.query(&QueryType::ByHandler(query.query))
    }

    /// Fails with `InvalidTimestamp`, leaving the cache alone, when the query
    /// text is not a decimal `i64`.
    pub fn query_reports_by_handle_timestamp(&mut self, query: ReportQuery) -> (r: Result<
        QueryPlan,
        Error,
    >)
        requires
            old(self).wf(),
        ensures
            final(self).wf(),
            match parsed_i64(query.query@) {
                Some(t) => r matches Ok(plan) && planned(
                    old(self).cached(),
                    final(self).cached(),
                    QueryType::ByHandleTimestamp(t),
                    plan,
                ),
                None => r == Err::<QueryPlan, Error>(Error::InvalidTimestamp) && final(self).cached()
                    == old(self).cached(),
            },
    {
        match parse_i64(query.query.as_str()) {
            Some(t) => Ok(self.query(&QueryType::ByHandleTimestamp(t))),
            None => Err(Error::InvalidTimestamp),
        }
    }

    pub fn query_reports_by_active(&mut self) -> (plan: QueryPlan)
        requires
            old(self).wf(),
        ensures
            final(self).wf(),
            planned(old(self).cached(), final(self).cached(), QueryType::ByActive, plan),
    {
        self.query(&QueryType::ByActive)
    }
}

} // verus!
