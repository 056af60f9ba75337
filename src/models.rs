use vstd::prelude::*;

verus! {

/// A report as the store holds it.
#[derive(Debug, PartialEq)]
pub struct Report {
    pub id: i64,
    pub active: bool,
    /// Creation time, in seconds.
    pub timestamp: i64,
    pub reporter: String,
    pub reported: String,
    /// The operator who deactivated the report.
    pub handler: Option<String>,
    /// Deactivation time, in seconds.
    pub handle_ts: Option<i64>,
    pub comment: Option<String>,
    pub description: String,
    pub tags: Option<String>,
}

impl Report {
    /// The lifecycle invariant of a report: the deactivation fields are set
    /// exactly when the report is no longer active, and a report is never
    /// handled before it was created.
    pub open spec fn well_formed(&self) -> bool {
        &&& (self.handler is Some <==> !self.active)
        &&& (self.handle_ts is Some <==> !self.active)
        &&& (self.handle_ts matches Some(h) ==> h >= self.timestamp)
    }
}

/// Copies an optional text field.
pub fn copy_text(s: &Option<String>) -> (r: Option<String>)
    ensures
        r == *s,
{
    match s {
        Some(t) => Some(t.clone()),
        None => None,
    }
}

impl Clone for Report {
    fn clone(&self) -> (r: Self)
        ensures
            r == *self,
    {
        Report {
            id: self.id,
            active: self.active,
            timestamp: self.timestamp,
            reporter: self.reporter.clone(),
            reported: self.reported.clone(),
            handler: copy_text(&self.handler),
            handle_ts: self.handle_ts,
            comment: copy_text(&self.comment),
            description: self.description.clone(),
            tags: copy_text(&self.tags),
        }
    }
}

/// A single tag of a report.
#[derive(Debug, Clone, PartialEq)]
pub struct Tag {
    tag: String,
}

impl Tag {
    pub fn new(tag: String) -> (r: Tag)
        ensures
            r.text() == tag,
    {
        Tag { tag }
    }

    pub closed spec fn text(&self) -> String {
        self.tag
    }

    pub fn as_str(&self) -> (r: &str)
        ensures
            r@ == self.text()@,
    {
        self.tag.as_str()
    }
}

/// The row that a submission inserts; the store assigns the id.
#[derive(Debug, PartialEq)]
pub struct NewReport {
    pub active: bool,
    pub timestamp: i64,
    pub reporter: String,
    pub reported: String,
    pub description: String,
    pub tags: Option<String>,
}

impl Clone for NewReport {
    fn clone(&self) -> (r: Self)
        ensures
            r == *self,
    {
        NewReport {
            active: self.active,
            timestamp: self.timestamp,
            reporter: self.reporter.clone(),
            reported: self.reported.clone(),
            description: self.description.clone(),
            tags: copy_text(&self.tags),
        }
    }
}

/// A submission as a client sends it. An empty `tags` means no tags.
#[derive(Debug, Clone, PartialEq)]
pub struct ReportRequest {
    pub reporter: String,
    pub reported: String,
    pub desc: String,
    pub tags: String,
}

/// An operator's request to close a report.
#[derive(Debug, Clone, PartialEq)]
pub struct ReportDeactivateRequest {
    pub id: i64,
    pub operator: String,
    pub comment: Option<String>,
}

/// A query argument: a text value, or an id for lookups by id.
#[derive(Debug, Clone, PartialEq)]
pub struct ReportQuery {
    pub query: String,
    pub id: i64,
}

} // verus!
