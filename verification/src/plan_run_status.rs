//! The status of an Issue Assignment, and how a change of it is stored.

use vstd::prelude::*;

use crate::contracts::BlockReason;
#[allow(unused_imports)]
use crate::contracts::AssignmentStatusKind;

verus! {

/// The execution state of one Issue Assignment inside a Plan Run.
#[derive(Clone, Debug, Eq, PartialEq)]
pub enum AssignmentStatus {
    Implementing,
    Implemented,
    Reviewed,
    Merging,
    /// Integrated locally and verified; the push has not succeeded yet.
    MergeStaged,
    Merged,
    /// Blocked for a typed reason, with a text for the operator.
    Blocked { kind: BlockReason, detail: String },
}

impl AssignmentStatus {
    /// The status without the reason of a block.
    pub open spec fn status_kind(&self) -> AssignmentStatusKind {
        match self {
            AssignmentStatus::Implementing => AssignmentStatusKind::Implementing,
            AssignmentStatus::Implemented => AssignmentStatusKind::Implemented,
            AssignmentStatus::Reviewed => AssignmentStatusKind::Reviewed,
            AssignmentStatus::Merging => AssignmentStatusKind::Merging,
            AssignmentStatus::MergeStaged => AssignmentStatusKind::MergeStaged,
            AssignmentStatus::Merged => AssignmentStatusKind::Merged,
            AssignmentStatus::Blocked { .. } => AssignmentStatusKind::Blocked,
        }
    }

    /// The stored form of the status.
    pub fn as_str(&self) -> (text: &'static str)
        ensures
            text@ == self.status_kind().wire(),
    {
        match self {
            AssignmentStatus::Implementing => "implementing",
            AssignmentStatus::Implemented => "implemented",
            AssignmentStatus::Reviewed => "reviewed",
            AssignmentStatus::Merging => "merging",
            AssignmentStatus::MergeStaged => "merge_staged",
            AssignmentStatus::Merged => "merged",
            AssignmentStatus::Blocked { .. } => "blocked",
        }
    }
}

/// How a change of status is stored.
#[derive(Clone, Debug, Eq, PartialEq)]
pub enum StatusWrite {
    /// Set the status, with no detail.
    SetStatus { status: &'static str },
    /// Record a block with its reason. An empty detail is stored as none.
    RecordBlocked { kind: BlockReason, detail: Option<String> },
}

/// `write` stores the change to `status`.
pub open spec fn stores_status(write: StatusWrite, status: AssignmentStatus) -> bool {
    match status {
        AssignmentStatus::Blocked { kind, detail } => write matches StatusWrite::RecordBlocked {
            kind: stored_kind,
            detail: stored_detail,
        } && stored_kind == kind && match stored_detail {
            Some(text) => detail@.len() > 0 && text@ == detail@,
            None => detail@.len() == 0,
        },
        other => write matches StatusWrite::SetStatus { status: stored } && stored@
            == other.status_kind().wire(),
    }
}

/// How the change to `status` is stored. The stored assignment is published
/// after the write.
pub fn transition_assignment(status: AssignmentStatus) -> (write: StatusWrite)
    ensures
        stores_status(write, status),
{
    match status {
        AssignmentStatus::Blocked { kind, detail } => {
            let stored = if detail.as_str().is_empty() {
                None
            } else {
                Some(detail)
            };
            StatusWrite::RecordBlocked { kind, detail: stored }
        },
        other => StatusWrite::SetStatus { status: other.as_str() },
    }
}

} // verus!
