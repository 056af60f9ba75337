//! Report state engine: a write-through mirror of the report table, the
//! query dispatcher in front of it, the lifecycle rules of a report and the
//! decisions of the subscriber broadcaster.

pub mod models;
pub mod query;
pub mod cache;
pub mod error;
pub mod handler;
pub mod laws;
pub mod transporter;
pub mod wire;

pub use cache::{QueryPlan, ReportCache};
pub use error::{Error, StatusCode, StoreError};
pub use handler::ReportHandler;
pub use models::{NewReport, Report, ReportDeactivateRequest, ReportQuery, ReportRequest, Tag};
pub use query::QueryType;
pub use transporter::{Delivery, Next, Transporter};
pub use wire::{single_report, IdentifiedReportMessage};
