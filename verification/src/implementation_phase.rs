//! The Implementation Phase: its prompt, and the check of its outcome.

use vstd::prelude::*;

use crate::contracts::{
    IssueAssignmentResponse, PlanRunResponse, ProjectExecutionConfigResponse, ProjectResponse,
};
use crate::plan_run::RefreshedBaseline;
use crate::problem::CoordinatorError;
use crate::prompt::fill;
#[allow(unused_imports)]
use crate::prompt::filled;
use crate::text::{concat, same_text};

verus! {

/// Why an implementation pass does not enter the Review Phase.
#[derive(Clone, Debug, Eq, PartialEq)]
pub enum ImplementationRejection {
    /// The pass could not be run.
    PhaseFailed(String),
    /// The output of the pass could not be read.
    Unparseable(String),
    /// The outcome is not `ready_for_review`.
    NotReadyForReview { outcome: String },
}

impl ImplementationRejection {
    /// The problem type that the rejection is reported with.
    pub open spec fn problem_type(&self) -> Seq<char> {
        match self {
            ImplementationRejection::PhaseFailed(_) =>
                "urn:agentic-afk:implementation-phase-failed"@,
            ImplementationRejection::Unparseable(_) =>
                "urn:agentic-afk:implementation-output-unparseable"@,
            ImplementationRejection::NotReadyForReview { .. } =>
                "urn:agentic-afk:implementation-not-ready"@,
        }
    }

    /// The detail that the rejection is reported with.
    pub open spec fn detail(&self) -> Seq<char> {
        match self {
            ImplementationRejection::PhaseFailed(error) => error@,
            ImplementationRejection::Unparseable(error) => error@,
            ImplementationRejection::NotReadyForReview { outcome } => not_ready_detail(outcome@),
        }
    }
}

/// What is said of an outcome that does not enter the Review Phase.
pub open spec fn not_ready_detail(outcome: Seq<char>) -> Seq<char> {
    "implementation outcome `"@ + outcome + "` does not enter Review Phase"@
}

impl From<ImplementationRejection> for CoordinatorError {
    fn from(rejection: ImplementationRejection) -> (error: CoordinatorError)
        ensures
            error.is(500, rejection.problem_type(), rejection.detail()),
    {
        match rejection {
            ImplementationRejection::PhaseFailed(error) => CoordinatorError::new(
                500,
                "urn:agentic-afk:implementation-phase-failed",
                error,
            ),
            ImplementationRejection::Unparseable(error) => CoordinatorError::new(
                500,
                "urn:agentic-afk:implementation-output-unparseable",
                error,
            ),
            ImplementationRejection::NotReadyForReview { outcome } => {
                let mut detail = concat("implementation outcome `", outcome.as_str());
                detail.append("` does not enter Review Phase");
                CoordinatorError::new(500, "urn:agentic-afk:implementation-not-ready", detail)
            },
        }
    }
}

impl vstd::std_specs::convert::FromSpecImpl<ImplementationRejection> for CoordinatorError {
    open spec fn obeys_from_spec() -> bool {
        false
    }

    open spec fn from_spec(rejection: ImplementationRejection) -> CoordinatorError {
        arbitrary()
    }
}

/// The name of the phase in stored outputs.
pub const PHASE_NAME: &'static str = "implementation";

/// Whether the outcome enters the Review Phase: only `ready_for_review` does.
pub fn check_implementation_outcome(outcome: &str) -> (check: Result<(), ImplementationRejection>)
    ensures
        match check {
            Ok(()) => outcome@ == "ready_for_review"@,
            Err(rejection) => outcome@ != "ready_for_review"@ && (rejection matches
                ImplementationRejection::NotReadyForReview { outcome: rejected } && rejected@
                == outcome@),
        },
{
    if same_text(outcome, "ready_for_review") {
        Ok(())
    } else {
        Err(ImplementationRejection::NotReadyForReview { outcome: outcome.to_owned() })
    }
}

/// `template` with the placeholders that the implementation, review and merge
/// prompts share filled in.
pub open spec fn assignment_prompt_base(
    template: Seq<char>,
    project_instructions: Seq<char>,
    project: ProjectResponse,
    plan_run: PlanRunResponse,
    baseline: RefreshedBaseline,
    config: ProjectExecutionConfigResponse,
    assignment: IssueAssignmentResponse,
) -> Seq<char> {
    let a = filled(template, "PROJECT_INSTRUCTIONS"@, project_instructions);
    let b = filled(a, "PROJECT_NAME"@, project.path@);
    let c = filled(b, "PLAN_RUN_ID"@, plan_run.id@);
    let d = filled(c, "PLAN_RUN_BASELINE"@, baseline.commit_sha@);
    let e = filled(d, "INTEGRATION_BRANCH"@, config.integration_branch@);
    let f = filled(e, "SOURCE_ISSUE_ID"@, assignment.source_id@);
    let g = filled(f, "SOURCE_ISSUE_TITLE"@, assignment.source_title@);
    filled(g, "ISSUE_BRANCH"@, assignment.branch@)
}

/// Fill in the placeholders that the implementation, review and merge prompts
/// share.
pub fn fill_assignment_prompt(
    template: &str,
    project_instructions: &str,
    project: &ProjectResponse,
    plan_run: &PlanRunResponse,
    baseline: &RefreshedBaseline,
    config: &ProjectExecutionConfigResponse,
    assignment: &IssueAssignmentResponse,
) -> (prompt: String)
    ensures
        prompt@ == assignment_prompt_base(
            template@,
            project_instructions@,
            *project,
            *plan_run,
            *baseline,
            *config,
            *assignment,
        ),
{
    let a = fill(template, "PROJECT_INSTRUCTIONS", project_instructions);
    let b = fill(a.as_str(), "PROJECT_NAME", project.path.as_str());
    let c = fill(b.as_str(), "PLAN_RUN_ID", plan_run.id.as_str());
    let d = fill(c.as_str(), "PLAN_RUN_BASELINE", baseline.commit_sha.as_str());
    let e = fill(d.as_str(), "INTEGRATION_BRANCH", config.integration_branch.as_str());
    let f = fill(e.as_str(), "SOURCE_ISSUE_ID", assignment.source_id.as_str());
    let g = fill(f.as_str(), "SOURCE_ISSUE_TITLE", assignment.source_title.as_str());
    fill(g.as_str(), "ISSUE_BRANCH", assignment.branch.as_str())
}

/// The implementation prompt: `template` with its placeholders filled in.
pub fn render_implementation_prompt(
    template: &str,
    project_instructions: &str,
    project: &ProjectResponse,
    plan_run: &PlanRunResponse,
    baseline: &RefreshedBaseline,
    config: &ProjectExecutionConfigResponse,
    assignment: &IssueAssignmentResponse,
    source_issue_brief: &str,
    review_findings: &str,
) -> (prompt: String)
    ensures
        prompt@ == {
            let base = assignment_prompt_base(
                template@,
                project_instructions@,
                *project,
                *plan_run,
                *baseline,
                *config,
                *assignment,
            );
            filled(
                filled(base, "SOURCE_ISSUE_BRIEF"@, source_issue_brief@),
                "REVIEW_FINDINGS"@,
                review_findings@,
            )
        },
{
    let base = fill_assignment_prompt(
        template,
        project_instructions,
        project,
        plan_run,
        baseline,
        config,
        assignment,
    );
    let briefed = fill(base.as_str(), "SOURCE_ISSUE_BRIEF", source_issue_brief);
    fill(briefed.as_str(), "REVIEW_FINDINGS", review_findings)
}

} // verus!
