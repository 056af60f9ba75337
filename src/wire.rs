use vstd::prelude::*;

use crate::error::Error;
use crate::models::{Report, ReportDeactivateRequest};

verus! {

/// A report as it travels over the RPC interface, where an unset text is
/// written as the empty string and an unset time as -1.
#[derive(Debug, Clone, PartialEq)]
pub struct IdentifiedReportMessage {
    pub id: i64,
    pub active: bool,
    pub timestamp: i64,
    pub reporter: String,
    pub reported: String,
    pub handler: String,
    pub handle_ts: i64,
    pub comment: String,
    pub desc: String,
    pub tags: String,
}

/// The wire text of an optional text.
pub open spec fn text_or_empty(t: Option<String>) -> Seq<char> {
    match t {
        Some(s) => s@,
        None => Seq::empty(),
    }
}

/// The wire time of an optional time.
pub open spec fn time_or_unset(t: Option<i64>) -> i64 {
    match t {
        Some(h) => h,
        None => -1i64,
    }
}

/// The optional text that a wire text stands for.
pub open spec fn text_if_any(s: String) -> Option<String> {
    if s@.len() == 0 {
        None
    } else {
        Some(s)
    }
}

/// The optional time that a wire time stands for.
pub open spec fn time_if_any(t: i64) -> Option<i64> {
    if t == -1 {
        None
    } else {
        Some(t)
    }
}

fn text_or_empty_of(t: Option<String>) -> (s: String)
    ensures
        s@ == text_or_empty(t),
{
    match t {
        Some(s) => s,
        None => String::new(),
    }
}

fn text_if_any_of(s: String) -> (t: Option<String>)
    ensures
        t == text_if_any(s),
{
    if s.as_str().is_empty() {
        None
    } else {
        Some(s)
    }
}

impl IdentifiedReportMessage {
    /// Writes a report in wire form.
    pub fn from_report(r: Report) -> (m: IdentifiedReportMessage)
        ensures
            m.id == r.id,
            m.active == r.active,
            m.timestamp == r.timestamp,
            m.reporter == r.reporter,
            m.reported == r.reported,
            m.handler@ == text_or_empty(r.handler),
            m.handle_ts == time_or_unset(r.handle_ts),
            m.comment@ == text_or_empty(r.comment),
            m.desc == r.description,
            m.tags@ == text_or_empty(r.tags),
    {
        IdentifiedReportMessage {
            id: r.id,
            active: r.active,
            timestamp: r.timestamp,
            reporter: r.reporter,
            reported: r.reported,
            handler: text_or_empty_of(r.handler),
            handle_ts: match r.handle_ts {
                Some(h) => h,
                None => -1,
            },
            comment: text_or_empty_of(r.comment),
            desc: r.description,
            tags: text_or_empty_of(r.tags),
        }
    }

    /// Reads a report from wire form.
    pub fn into_report(self) -> (r: Report)
        ensures
            r == (Report {
                id: self.id,
                active: self.active,
                timestamp: self.timestamp,
                reporter: self.reporter,
                reported: self.reported,
                handler: text_if_any(self.handler),
                handle_ts: time_if_any(self.handle_ts),
                comment: text_if_any(self.comment),
                description: self.desc,
                tags: text_if_any(self.tags),
            }),
    {
        Report {
            id: self.id,
            active: self.active,
            timestamp: self.timestamp,
            reporter: self.reporter,
            reported: self.reported,
            handler: text_if_any_of(self.handler),
            handle_ts: if self.handle_ts == -1 {
                None
            } else {
                Some(self.handle_ts)
            },
            comment: text_if_any_of(self.comment),
            description: self.desc,
            tags: text_if_any_of(self.tags),
        }
    }
}

impl ReportDeactivateRequest {
    /// Reads a deactivation request from wire form, where an empty comment
    /// means none.
    pub fn from_message(id: i64, operator: String, comment: String) -> (r: ReportDeactivateRequest)
        ensures
            r == (ReportDeactivateRequest { id, operator, comment: text_if_any(comment) }),
    {
        ReportDeactivateRequest { id, operator, comment: text_if_any_of(comment) }
    }
}

/// The single answer to a lookup by id: the first row, or `NotFound` when
/// there is none.
pub fn single_report(rows: Vec<Report>) -> (r: Result<Report, Error>)
    ensures
        rows@.len() == 0 ==> r == Err::<Report, Error>(Error::NotFound),
        rows@.len() > 0 ==> r == Ok::<Report, Error>(rows@[0]),
{
    if rows.len() == 0 {
        Err(Error::NotFound)
    } else {
        Ok(rows[0].clone())
    }
}

} // verus!
