//! `com.atproto.moderation` reports.

use vstd::prelude::*;
use crate::json::JsonValue;

verus! {

/// Why something is reported.
#[derive(Clone, Copy, Debug, PartialEq, Eq, Structural)]
pub enum ReasonType {
    Spam,
    Violation,
    Misleading,
    Sexual,
    Rude,
    Other,
    Appeal,
}

/// What kind of subject a report is about.
#[derive(Clone, Copy, Debug, PartialEq, Eq, Structural)]
pub enum SubjectType {
    Account,
    Record,
    Chat,
}

/// A reference to a repository.
#[derive(Debug)]
pub struct RepoRef {
    pub did: String,
}

/// A reference to one version of a record.
#[derive(Debug)]
pub struct StrongRef {
    pub uri: String,
    pub cid: String,
}

/// The subject of a report: a repository or a record.
#[derive(Debug)]
pub enum CreateReportSubject {
    RepoRef(RepoRef),
    StrongRef(StrongRef),
}

/// The answer to a report.
#[derive(Debug)]
pub struct CreateReportOutput {
    pub id: i64,
    pub reason_type: ReasonType,
    pub reason: Option<String>,
    pub subject: CreateReportSubject,
    pub reported_by: String,
    pub created_at: String,
}


/// The tool a report was made with.
#[derive(Debug)]
pub struct ModTool {
    pub name: String,
    pub meta: Option<JsonValue>,
}

/// `com.atproto.moderation.createReport` input.
#[derive(Debug)]
pub struct CreateReportInput {
    pub reason_type: ReasonType,
    pub reason: Option<String>,
    pub subject: CreateReportSubject,
    pub mod_tool: Option<ModTool>,
}

} // verus!
