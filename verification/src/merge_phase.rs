//! The Merge Phase: its prompt, and what became of one merge.

use vstd::prelude::*;

use crate::contracts::{
    IssueAssignmentResponse, PlanRunResponse, ProjectExecutionConfigResponse, ProjectResponse,
};
use crate::implementation_phase::fill_assignment_prompt;
#[allow(unused_imports)]
use crate::implementation_phase::assignment_prompt_base;
use crate::json::JsonDocument;
#[allow(unused_imports)]
use crate::json::{json_pretty, text_field, JsonModel};
use crate::plan_run::{ParsedMergeOutput, RefreshedBaseline};
use crate::problem::CoordinatorError;
use crate::prompt::fill;
#[allow(unused_imports)]
use crate::prompt::filled;
use crate::text::same_text;

verus! {

/// The name of the phase in stored outputs.
pub const PHASE_NAME: &'static str = "merge";

/// What happened when the Merge Phase tried to integrate one Issue Assignment.
#[derive(Clone, Debug, Eq, PartialEq)]
pub enum AssignmentMergeOutcome {
    /// The work is integrated locally; the push waits for the other merges.
    Merged,
    /// The work could not be merged.
    Blocked { reason: String },
    /// The assignment was not approved, so there was nothing to merge.
    NotAttempted,
}

/// A merge output that could not be read.
#[derive(Clone, Debug, Eq, PartialEq)]
pub enum MergeRejection {
    Unparseable(String),
}

impl From<MergeRejection> for CoordinatorError {
    fn from(rejection: MergeRejection) -> (error: CoordinatorError)
        ensures
            error.is(500, "urn:agentic-afk:merge-output-unparseable"@, rejection->0@),
    {
        match rejection {
            MergeRejection::Unparseable(error) => CoordinatorError::new(
                500,
                "urn:agentic-afk:merge-output-unparseable",
                error,
            ),
        }
    }
}

impl vstd::std_specs::convert::FromSpecImpl<MergeRejection> for CoordinatorError {
    open spec fn obeys_from_spec() -> bool {
        false
    }

    open spec fn from_spec(rejection: MergeRejection) -> CoordinatorError {
        arbitrary()
    }
}

/// Why a merge body says that the merge is blocked: its `block_reason`, or its
/// `summary`, or a fixed text.
pub open spec fn merge_block_reason(body: JsonModel) -> Seq<char> {
    match text_field(body, "block_reason"@) {
        Some(reason) => reason,
        None => match text_field(body, "summary"@) {
            Some(summary) => summary,
            None => "Merge Phase blocked without an explicit reason"@,
        },
    }
}

/// `outcome` is what a merge with this output came to.
pub open spec fn is_merge_outcome(
    outcome: AssignmentMergeOutcome,
    parsed: ParsedMergeOutput,
) -> bool {
    if parsed.outcome@ == "blocked"@ {
        outcome matches AssignmentMergeOutcome::Blocked { reason } && reason@
            == merge_block_reason(parsed.body.value@)
    } else {
        outcome is Merged
    }
}

/// What a merge with this output came to.
pub fn decide_merge_outcome(parsed: &ParsedMergeOutput) -> (outcome: AssignmentMergeOutcome)
    ensures
        is_merge_outcome(outcome, *parsed),
{
    if !same_text(parsed.outcome.as_str(), "blocked") {
        return AssignmentMergeOutcome::Merged;
    }
    let reason = match parsed.body.value.text_at("block_reason") {
        Some(reason) => reason.clone(),
        None => match parsed.body.value.text_at("summary") {
            Some(summary) => summary.clone(),
            None => "Merge Phase blocked without an explicit reason".to_owned(),
        },
    };
    AssignmentMergeOutcome::Blocked { reason }
}

/// The planner's reason for the assignment, or a fixed text.
pub open spec fn selection_text(assignment: IssueAssignmentResponse) -> Seq<char> {
    match assignment.selection_summary {
        Some(summary) => summary@,
        None => "(no selection summary)"@,
    }
}

/// The planner's reason for the assignment, or a fixed text.
pub fn selection_summary_or_placeholder(assignment: &IssueAssignmentResponse) -> (text: String)
    ensures
        text@ == selection_text(*assignment),
{
    match &assignment.selection_summary {
        Some(summary) => summary.clone(),
        None => "(no selection summary)".to_owned(),
    }
}

/// The merge prompt: `template` with its placeholders filled in.
pub fn render_merge_prompt(
    template: &str,
    project_instructions: &str,
    project: &ProjectResponse,
    plan_run: &PlanRunResponse,
    baseline: &RefreshedBaseline,
    config: &ProjectExecutionConfigResponse,
    assignment: &IssueAssignmentResponse,
    review_body: &JsonDocument,
) -> (prompt: String)
    ensures
        prompt@ == {
            let base = assignment_prompt_base(
                template@,
                project_instructions@,
                *project,
                *plan_run,
                *baseline,
                *config,
                *assignment,
            );
            filled(
                filled(base, "SELECTION_SUMMARY"@, selection_text(*assignment)),
                "REVIEW_PHASE_OUTPUT"@,
                json_pretty(review_body.text@),
            )
        },
{
    let base = fill_assignment_prompt(
        template,
        project_instructions,
        project,
        plan_run,
        baseline,
        config,
        assignment,
    );
    let summarised = fill(
        base.as_str(),
        "SELECTION_SUMMARY",
        selection_summary_or_placeholder(assignment).as_str(),
    );
    fill(summarised.as_str(), "REVIEW_PHASE_OUTPUT", review_body.pretty().as_str())
}

} // verus!
