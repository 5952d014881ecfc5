//! The three record kinds behind the list views, exactly as the cache
//! files order them. All three are externally sourced and read-only
//! here: the file order is authoritative for display and for the
//! position-based identifier a mutation targets. Timestamps are carried
//! in their serialized textual form, since the dashboard only shows
//! them.

use vstd::prelude::*;

verus! {

/// One task: its external 1-based identifier, the owning project, a
/// short preview, the full content, and three timestamps.
#[derive(Clone, Debug)]
pub struct Task {
    pub id: usize,
    pub project: String,
    pub content_preview: String,
    pub content: String,
    pub begin_date: String,
    pub end_date: String,
    pub finish_date: String,
}

/// One comment: a preview of the parent task stands in for a link to
/// it; there is no foreign key.
#[derive(Clone, Debug)]
pub struct Comment {
    pub id: usize,
    pub task_preview: String,
    pub content: String,
    pub created_at: String,
}

/// One project with its customer's contact data.
#[derive(Clone, Debug)]
pub struct Project {
    pub id: usize,
    pub name: String,
    pub customer_name: String,
    pub customer_document: String,
    pub customer_contact: String,
    pub created_at: String,
}

/// The two ways reading a cache collection fails: the file cannot be
/// read, or its content does not parse as the expected records.
#[derive(Copy, Clone, PartialEq, Eq, Structural, Debug)]
pub enum Error {
    ReadDBError,
    ParseDBError,
}

impl Error {
    /// A short description of the failure for display.
    pub fn message(&self) -> (s: &'static str)
        ensures
            self is ReadDBError ==> s@ == "error reading the DB file"@,
            self is ParseDBError ==> s@ == "error parsing the DB file"@,
    {
        match self {
            Error::ReadDBError => "error reading the DB file",
            Error::ParseDBError => "error parsing the DB file",
        }
    }
}

} // verus!
