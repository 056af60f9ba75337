use vstd::prelude::*;

verus! {

/// Why an operation of the report handler failed.
#[derive(Debug, Clone, Copy, PartialEq, Eq, Structural)]
pub enum Error {
    /// A read or a write of the store failed.
    DatabaseFailed,
    /// A subscriber's send failed after the store mutation was committed.
    TransportError,
    /// A timestamp argument is not a decimal integer.
    InvalidTimestamp,
    /// No report has the given id.
    NotFound,
    /// The report was already deactivated.
    AlreadyDeactivated,
}

/// The RPC status codes that errors are reported with.
#[derive(Debug, Clone, Copy, PartialEq, Eq, Structural)]
pub enum StatusCode {
    FailedPrecondition,
    Aborted,
    InvalidArgument,
    NotFound,
    AlreadyExists,
}

/// A store operation failed; the store's own error is not carried.
#[derive(Debug, Clone, Copy, PartialEq, Eq, Structural)]
pub struct StoreError;

impl Error {
    /// The status code that each error kind is surfaced with; no two kinds
    /// share one.
    pub open spec fn code(self) -> StatusCode {
        match self {
            Error::DatabaseFailed => StatusCode::FailedPrecondition,
            Error::TransportError => StatusCode::Aborted,
            Error::InvalidTimestamp => StatusCode::InvalidArgument,
            Error::NotFound => StatusCode::NotFound,
            Error::AlreadyDeactivated => StatusCode::AlreadyExists,
        }
    }

    pub fn status(&self) -> (c: StatusCode)
        ensures
            c == self.code(),
    {
        match self {
            Error::DatabaseFailed => StatusCode::FailedPrecondition,
            Error::TransportError => StatusCode::Aborted,
            Error::InvalidTimestamp => StatusCode::InvalidArgument,
            Error::NotFound => StatusCode::NotFound,
            Error::AlreadyDeactivated => StatusCode::AlreadyExists,
        }
    }

    /// A short text for the error.
    pub fn message(&self) -> (m: &'static str)
        ensures
            *self == Error::DatabaseFailed ==> m@ == "database failed"@,
            *self == Error::TransportError ==> m@ == "transport error"@,
            *self == Error::InvalidTimestamp ==> m@ == "invalid timestamp"@,
            *self == Error::NotFound ==> m@ == "not found"@,
            *self == Error::AlreadyDeactivated ==> m@ == "already deactivated"@,
    {
        match self {
            Error::DatabaseFailed => "database failed",
            Error::TransportError => "transport error",
            Error::InvalidTimestamp => "invalid timestamp",
            Error::NotFound => "not found",
            Error::AlreadyDeactivated => "already deactivated",
        }
    }
}

/// Distinct error kinds are surfaced with distinct status codes.
pub proof fn lemma_codes_distinct(a: Error, b: Error)
    requires
        a != b,
    ensures
        a.code() != b.code(),
{
}

} // verus!
