//! The Review Loop: its prompt, the findings of a review, and the decision
//! after one review pass.

use vstd::prelude::*;

use crate::contracts::{
    IssueAssignmentResponse, PlanRunResponse, ProjectExecutionConfigResponse, ProjectResponse,
};
use crate::implementation_phase::fill_assignment_prompt;
#[allow(unused_imports)]
use crate::implementation_phase::assignment_prompt_base;
use crate::json::{Json, JsonDocument};
#[allow(unused_imports)]
use crate::json::{array_field, item_models, json_pretty, lemma_item_models, JsonModel};
use crate::numerals::decimal_i64;
#[allow(unused_imports)]
use crate::numerals::decimal_int;
use crate::plan_run::{ParsedReviewOutput, RefreshedBaseline};
use crate::problem::CoordinatorError;
use crate::prompt::fill;
#[allow(unused_imports)]
use crate::prompt::filled;
use crate::text::{concat, same_text};
#[allow(unused_imports)]
use crate::text::views;
use crate::text_parts::join_strings;
#[allow(unused_imports)]
use crate::text_parts::join;

verus! {

/// The name of the phase in stored outputs.
pub const PHASE_NAME: &'static str = "review";

/// What follows one review pass.
#[derive(Clone, Debug, Eq, PartialEq)]
pub enum ReviewLoopStep {
    /// The review approved the assignment; its body is the merge's evidence.
    Approved { review_body: JsonDocument },
    /// The assignment goes back to implementation with these findings.
    Retry { findings: String },
    /// The assignment has reached the Review Retry Limit.
    Block { reason: String },
}

/// Why a review pass gave no decision.
#[derive(Clone, Debug, Eq, PartialEq)]
pub enum ReviewLoopRejection {
    PhaseFailed(String),
    Unparseable(String),
}

impl ReviewLoopRejection {
    /// The problem type that the rejection is reported with.
    pub open spec fn problem_type(&self) -> Seq<char> {
        match self {
            ReviewLoopRejection::PhaseFailed(_) => "urn:agentic-afk:review-phase-failed"@,
            ReviewLoopRejection::Unparseable(_) => "urn:agentic-afk:review-output-unparseable"@,
        }
    }

    /// The detail that the rejection is reported with.
    pub open spec fn detail(&self) -> Seq<char> {
        match self {
            ReviewLoopRejection::PhaseFailed(error) => error@,
            ReviewLoopRejection::Unparseable(error) => error@,
        }
    }
}

impl From<ReviewLoopRejection> for CoordinatorError {
    fn from(rejection: ReviewLoopRejection) -> (error: CoordinatorError)
        ensures
            error.is(500, rejection.problem_type(), rejection.detail()),
    {
        match rejection {
            ReviewLoopRejection::PhaseFailed(error) => CoordinatorError::new(
                500,
                "urn:agentic-afk:review-phase-failed",
                error,
            ),
            ReviewLoopRejection::Unparseable(error) => CoordinatorError::new(
                500,
                "urn:agentic-afk:review-output-unparseable",
                error,
            ),
        }
    }
}

impl vstd::std_specs::convert::FromSpecImpl<ReviewLoopRejection> for CoordinatorError {
    open spec fn obeys_from_spec() -> bool {
        false
    }

    open spec fn from_spec(rejection: ReviewLoopRejection) -> CoordinatorError {
        arbitrary()
    }
}

/// The reason with which an exhausted Review Loop blocks.
pub open spec fn exhausted_reason(rejection_count: int, review_retry_limit: int) -> Seq<char> {
    "Review Loop exhausted: "@ + decimal_int(rejection_count)
        + " rejection(s) reached the Project Review Retry Limit ("@ + decimal_int(
        review_retry_limit,
    ) + ")."@
}

/// Text items, each as a list entry; other items are left out.
pub open spec fn finding_entries(items: Seq<JsonModel>) -> Seq<Seq<char>>
    decreases items.len(),
{
    if items.len() == 0 {
        seq![]
    } else {
        let before = finding_entries(items.drop_last());
        match items.last() {
            JsonModel::Text(text) => before.push("- "@ + text),
            _ => before,
        }
    }
}

/// The findings of a review body as a list; empty where it has none.
pub open spec fn findings_text(body: JsonModel) -> Seq<char> {
    match array_field(body, "findings"@) {
        Some(items) => join(finding_entries(items), "\n"@),
        None => seq![],
    }
}

/// The findings of a review body as a list; empty where it has none.
pub fn extract_review_findings(body: &Json) -> (findings: String)
    ensures
        findings@ == findings_text(body@),
{
    match body.array_at("findings") {
        None => String::new(),
        Some(items) => {
            let ghost models = item_models(items@);
            proof {
                lemma_item_models(items@);
                assert(models.take(0) =~= Seq::<JsonModel>::empty());
            }
            let mut entries: Vec<String> = Vec::new();
            assert(views(entries@) =~= finding_entries(models.take(0)));
            let mut i: usize = 0;
            while i < items.len()
                invariant
                    i <= items.len(),
                    models == item_models(items@),
                    models.len() == items.len(),
                    forall|k: int| 0 <= k < items.len() ==> #[trigger] models[k] == items@[k]@,
                    views(entries@) == finding_entries(models.take(i as int)),
                decreases items.len() - i,
            {
                proof {
                    let next = models.take(i + 1);
                    assert(next.drop_last() =~= models.take(i as int));
                    assert(next.last() == models[i as int]);
                }
                match items[i].as_text() {
                    Some(text) => {
                        let entry = concat("- ", text.as_str());
                        let ghost before = entries@;
                        entries.push(entry);
                        assert(views(entries@) =~= views(before).push(entry@));
                    },
                    None => {},
                }
                i += 1;
            }
            assert(models.take(i as int) =~= models);
            join_strings(&entries, "\n")
        },
    }
}

/// The decision after one review pass: an approval ends the loop, a rejection
/// at the limit blocks, and any other rejection returns its findings.
/// `rejection_count` counts this rejection too.
pub open spec fn is_review_loop_step(
    step: ReviewLoopStep,
    parsed: ParsedReviewOutput,
    rejection_count: i64,
    review_retry_limit: i64,
) -> bool {
    if parsed.outcome@ == "approved"@ {
        step matches ReviewLoopStep::Approved { review_body } && review_body.text
            == parsed.body.text && review_body.value@ == parsed.body.value@
    } else if rejection_count >= review_retry_limit {
        step matches ReviewLoopStep::Block { reason } && reason@ == exhausted_reason(
            rejection_count as int,
            review_retry_limit as int,
        )
    } else {
        step matches ReviewLoopStep::Retry { findings } && findings@ == findings_text(
            parsed.body.value@,
        )
    }
}

/// What follows one parsed review output.
pub fn decide_review_loop_step(
    parsed: &ParsedReviewOutput,
    rejection_count: i64,
    review_retry_limit: i64,
) -> (step: ReviewLoopStep)
    ensures
        is_review_loop_step(step, *parsed, rejection_count, review_retry_limit),
{
    if same_text(parsed.outcome.as_str(), "approved") {
        return ReviewLoopStep::Approved { review_body: parsed.body.copied() };
    }
    if rejection_count >= review_retry_limit {
        let mut reason = concat("Review Loop exhausted: ", decimal_i64(rejection_count).as_str());
        reason.append(" rejection(s) reached the Project Review Retry Limit (");
        reason.append(decimal_i64(review_retry_limit).as_str());
        reason.append(").");
        return ReviewLoopStep::Block { reason };
    }
    ReviewLoopStep::Retry { findings: extract_review_findings(&parsed.body.value) }
}

/// The review prompt: `template` with its placeholders filled in.
pub fn render_review_prompt(
    template: &str,
    project_instructions: &str,
    project: &ProjectResponse,
    plan_run: &PlanRunResponse,
    baseline: &RefreshedBaseline,
    config: &ProjectExecutionConfigResponse,
    assignment: &IssueAssignmentResponse,
    source_issue_brief: &str,
    impl_body: &JsonDocument,
) -> (prompt: String)
    ensures
        prompt@ == {
            let base = assignment_prompt_base(
                template@,
                project_instructions@,
                *project,
                *plan_run,
                *baseline,
                *config,
                *assignment,
            );
            filled(
                filled(base, "SOURCE_ISSUE_BRIEF"@, source_issue_brief@),
                "IMPLEMENTATION_PHASE_OUTPUT"@,
                json_pretty(impl_body.text@),
            )
        },
{
    let base = fill_assignment_prompt(
        template,
        project_instructions,
        project,
        plan_run,
        baseline,
        config,
        assignment,
    );
    let briefed = fill(base.as_str(), "SOURCE_ISSUE_BRIEF", source_issue_brief);
    fill(briefed.as_str(), "IMPLEMENTATION_PHASE_OUTPUT", impl_body.pretty().as_str())
}

} // verus!
