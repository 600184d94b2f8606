//! The failures that the coordinator reports to its callers.

use vstd::prelude::*;

verus! {

/// A failure with the HTTP status, the problem type and the detail of an RFC
/// 7807 response.
#[derive(Clone, Debug, Eq, PartialEq)]
pub struct CoordinatorError {
    pub status: u16,
    pub problem_type: String,
    pub detail: String,
}

impl CoordinatorError {
    /// The error has these parts.
    pub open spec fn is(&self, status: u16, problem_type: Seq<char>, detail: Seq<char>) -> bool {
        &&& self.status == status
        &&& self.problem_type@ == problem_type
        &&& self.detail@ == detail
    }

    pub fn new(status: u16, problem_type: &str, detail: String) -> (error: CoordinatorError)
        ensures
            error.is(status, problem_type@, detail@),
    {
        CoordinatorError { status, problem_type: problem_type.to_owned(), detail }
    }

    /// The failure that a failed database operation is reported as.
    pub fn from_persistence(error: PersistenceError) -> (reported: CoordinatorError)
        ensures
            reported.is(error.kind.status(), error.kind.problem_type(), error.message@),
    {
        let (status, problem_type): (u16, &str) = match error.kind {
            PersistenceErrorKind::NotFound => (404, "urn:agentic-afk:not-found"),
            PersistenceErrorKind::Duplicate => (409, "urn:agentic-afk:duplicate"),
            PersistenceErrorKind::InvalidPath => (422, "urn:agentic-afk:invalid-path"),
            PersistenceErrorKind::InvalidIssueSource => (
                422,
                "urn:agentic-afk:invalid-issue-source",
            ),
            PersistenceErrorKind::SnapshotNotFound => (
                404,
                "urn:agentic-afk:planning-snapshot-not-found",
            ),
            PersistenceErrorKind::ActiveAssignment => (409, "urn:agentic-afk:active-assignment"),
            PersistenceErrorKind::AssignmentNotFound => (
                404,
                "urn:agentic-afk:assignment-not-found",
            ),
            PersistenceErrorKind::Database => (500, "urn:agentic-afk:internal-error"),
        };
        CoordinatorError::new(status, problem_type, error.message)
    }
}

/// What went wrong in the database layer.
#[derive(Clone, Copy, Debug, Eq, PartialEq, Structural)]
pub enum PersistenceErrorKind {
    NotFound,
    Duplicate,
    InvalidPath,
    InvalidIssueSource,
    SnapshotNotFound,
    ActiveAssignment,
    AssignmentNotFound,
    Database,
}

impl PersistenceErrorKind {
    /// The HTTP status that the failure is reported with.
    pub open spec fn status(self) -> u16 {
        match self {
            PersistenceErrorKind::NotFound => 404,
            PersistenceErrorKind::Duplicate => 409,
            PersistenceErrorKind::InvalidPath => 422,
            PersistenceErrorKind::InvalidIssueSource => 422,
            PersistenceErrorKind::SnapshotNotFound => 404,
            PersistenceErrorKind::ActiveAssignment => 409,
            PersistenceErrorKind::AssignmentNotFound => 404,
            PersistenceErrorKind::Database => 500,
        }
    }

    /// The problem type that the failure is reported with.
    pub open spec fn problem_type(self) -> Seq<char> {
        match self {
            PersistenceErrorKind::NotFound => "urn:agentic-afk:not-found"@,
            PersistenceErrorKind::Duplicate => "urn:agentic-afk:duplicate"@,
            PersistenceErrorKind::InvalidPath => "urn:agentic-afk:invalid-path"@,
            PersistenceErrorKind::InvalidIssueSource => "urn:agentic-afk:invalid-issue-source"@,
            PersistenceErrorKind::SnapshotNotFound =>
                "urn:agentic-afk:planning-snapshot-not-found"@,
            PersistenceErrorKind::ActiveAssignment => "urn:agentic-afk:active-assignment"@,
            PersistenceErrorKind::AssignmentNotFound => "urn:agentic-afk:assignment-not-found"@,
            PersistenceErrorKind::Database => "urn:agentic-afk:internal-error"@,
        }
    }
}

/// A failure of the database layer with its message.
#[derive(Clone, Debug, Eq, PartialEq)]
pub struct PersistenceError {
    pub kind: PersistenceErrorKind,
    pub message: String,
}

} // verus!
