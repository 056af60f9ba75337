use vstd::prelude::*;

use crate::models::Report;

verus! {

/// The filters that the query dispatcher serves.
#[allow(non_camel_case_types)]
#[derive(Debug, PartialEq)]
pub enum QueryType {
    ALL,
    ByReporter(String),
    ByReported(String),
    /// Reports created at or before the given time.
    ByTimestamp(i64),
    ById(i64),
    ByActive,
    ByHandler(String),
    /// Reports deactivated at or before the given time.
    ByHandleTimestamp(i64),
}

impl QueryType {
    /// Whether the filter selects `r`.
    pub open spec fn admits(&self, r: Report) -> bool {
        match self {
            QueryType::ALL => true,
            QueryType::ByReporter(v) => r.reporter@ == v@,
            QueryType::ByReported(v) => r.reported@ == v@,
            QueryType::ByTimestamp(t) => r.timestamp <= *t,
            QueryType::ById(x) => r.id == *x,
            QueryType::ByActive => r.active,
            QueryType::ByHandler(v) => r.handler matches Some(h) && h@ == v@,
            QueryType::ByHandleTimestamp(t) => r.handle_ts matches Some(h) && h <= *t,
        }
    }

    pub fn accepts(&self, r: &Report) -> (b: bool)
        ensures
            b == self.admits(*r),
    {
        match self {
            QueryType::ALL => true,
            QueryType::ByReporter(v) => r.reporter == *v,
            QueryType::ByReported(v) => r.reported == *v,
            QueryType::ByTimestamp(t) => r.timestamp <= *t,
            QueryType::ById(x) => r.id == *x,
            QueryType::ByActive => r.active,
            QueryType::ByHandler(v) => match &r.handler {
                Some(h) => *h == *v,
                None => false,
            },
            QueryType::ByHandleTimestamp(t) => match r.handle_ts {
                Some(h) => h <= *t,
                None => false,
            },
        }
    }
}

impl Clone for QueryType {
    fn clone(&self) -> (r: Self)
        ensures
            r == *self,
    {
        match self {
            QueryType::ALL => QueryType::ALL,
            QueryType::ByReporter(v) => QueryType::ByReporter(v.clone()),
            QueryType::ByReported(v) => QueryType::ByReported(v.clone()),
            QueryType::ByTimestamp(t) => QueryType::ByTimestamp(*t),
            QueryType::ById(x) => QueryType::ById(*x),
            QueryType::ByActive => QueryType::ByActive,
            QueryType::ByHandler(v) => QueryType::ByHandler(v.clone()),
            QueryType::ByHandleTimestamp(t) => QueryType::ByHandleTimestamp(*t),
        }
    }
}

} // verus!
