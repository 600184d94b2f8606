//! What the phases say, and what is decided from it.

use vstd::prelude::*;

#[allow(unused_imports)]
use crate::contracts::{
    copy_git_summary, copy_issue_source, AbandonStagedRequest, AssignmentStatusKind, BlockReason,
    GitSummary, IssueAssignmentResponse, IssueSource, PhaseOutputBody, PlanRunState,
};
#[allow(unused_imports)]
use crate::implementation_phase::{check_implementation_outcome, ImplementationRejection};
#[allow(unused_imports)]
use crate::json::{array_field, parsed_json, text_field, Json, JsonModel};
#[allow(unused_imports)]
use crate::merge_phase::{
    decide_merge_outcome, selection_summary_or_placeholder, AssignmentMergeOutcome, MergeRejection,
};
#[allow(unused_imports)]
use crate::numerals::{decimal, decimal_int};
#[allow(unused_imports)]
use crate::plan_run::{
    extract_tagged_body, parse_implementation_output, parse_merge_output, parse_planning_output,
    parse_review_output, tagged_body, ParsedImplementationOutput, ParsedMergeOutput,
    ParsedPlanningOutput, ParsedReviewOutput, PhaseRecord, PlanRunPhaseError,
};
#[allow(unused_imports)]
use crate::plan_run_finalize::{decide_plan_run_terminal, PlanRunFinalize, PlanRunTerminal};
#[allow(unused_imports)]
use crate::plan_run_status::{transition_assignment, AssignmentStatus, StatusWrite};
#[allow(unused_imports)]
use crate::planning_phase::PlanningRejection;
#[allow(unused_imports)]
use crate::problem::{CoordinatorError, PersistenceError};
#[allow(unused_imports)]
use crate::review_loop::{
    decide_review_loop_step, extract_review_findings, finding_entries, ReviewLoopRejection,
    ReviewLoopStep,
};
#[allow(unused_imports)]
use crate::text::{find, lemma_find_from, matches_at, trim};

verus! {

// --- The findings of a review ---

/// The findings of a review grow by one entry for each finding that is a text, in their
/// order: a review with one finding more says what it said before, and the new finding on a
/// line of its own. A finding that is no text adds nothing. A review without findings, or
/// with none that is a list, says nothing.
pub proof fn law_findings_are_listed(
    body: &Json,
    more: &Json,
    items: Seq<JsonModel>,
    last: JsonModel,
    findings: String,
    grown: String,
)
    requires
        call_ensures(extract_review_findings, (body,), findings),
        call_ensures(extract_review_findings, (more,), grown),
        array_field(body@, "findings"@) == Some(items),
        array_field(more@, "findings"@) == Some(items.push(last)),
    ensures
        items.len() == 0 ==> findings@.len() == 0,
        !(last is Text) ==> grown@ == findings@,
        last matches JsonModel::Text(finding) ==> grown@ == (if exists|i: int|
            0 <= i < items.len() && (#[trigger] items[i]) is Text {
            findings@ + "\n"@ + "- "@ + finding
        } else {
            "- "@ + finding
        }),
{
    let all = items.push(last);
    assert(all.drop_last() =~= items);
    lemma_entries(items);
    match last {
        JsonModel::Text(finding) => {
            let entries = finding_entries(items);
            let longer = finding_entries(all);
            assert(longer == entries.push("- "@ + finding));
            assert(longer.drop_last() =~= entries);
            if entries.len() > 0 {
                assert(grown@ =~= findings@ + "\n"@ + "- "@ + finding);
            }
        },
        _ => {},
    }
}

proof fn lemma_entries(items: Seq<JsonModel>)
    ensures
        finding_entries(items).len() > 0 <==> exists|i: int|
            0 <= i < items.len() && (#[trigger] items[i]) is Text,
    decreases items.len(),
{
    if items.len() > 0 {
        let front = items.drop_last();
        lemma_entries(front);
        if items.last() is Text {
            assert(items[items.len() - 1] is Text);
        } else {
            if exists|i: int| 0 <= i < items.len() && (#[trigger] items[i]) is Text {
                let i = choose|i: int| 0 <= i < items.len() && (#[trigger] items[i]) is Text;
                assert(front[i] is Text);
            }
            if exists|i: int| 0 <= i < front.len() && (#[trigger] front[i]) is Text {
                let i = choose|i: int| 0 <= i < front.len() && (#[trigger] front[i]) is Text;
                assert(items[i] is Text);
            }
        }
    }
}

/// A review body whose `findings` are no list has no findings.
pub proof fn law_no_list_no_findings(body: &Json, findings: String)
    requires
        call_ensures(extract_review_findings, (body,), findings),
        array_field(body@, "findings"@) is None,
    ensures
        findings@.len() == 0,
{
}

/// An approval ends the loop, however many rejections there were, and hands on the body of
/// the review. A rejection blocks if and only if the limit is reached; before that, what is
/// handed back is what the review found.
pub proof fn law_review_decides(
    parsed: &ParsedReviewOutput,
    rejections: i64,
    limit: i64,
    step: ReviewLoopStep,
    findings: String,
)
    requires
        call_ensures(decide_review_loop_step, (parsed, rejections, limit), step),
        call_ensures(extract_review_findings, (&parsed.body.value,), findings),
    ensures
        step is Approved <==> parsed.outcome@ == "approved"@,
        step matches ReviewLoopStep::Approved { review_body } ==> review_body.text
            == parsed.body.text && review_body.value@ == parsed.body.value@,
        step is Block <==> parsed.outcome@ != "approved"@ && rejections >= limit,
        step is Retry <==> parsed.outcome@ != "approved"@ && rejections < limit,
        step matches ReviewLoopStep::Retry { findings: handed } ==> handed@ == findings@,
        step matches ReviewLoopStep::Block { reason } ==> reason@ == "Review Loop exhausted: "@
            + decimal_int(rejections as int)
            + " rejection(s) reached the Project Review Retry Limit ("@ + decimal_int(limit as int)
            + ")."@,
{
}

/// One rejection more never turns a block into a retry.
pub proof fn law_limit_is_final(
    parsed: &ParsedReviewOutput,
    rejections: i64,
    more: i64,
    limit: i64,
    step: ReviewLoopStep,
    later: ReviewLoopStep,
)
    requires
        call_ensures(decide_review_loop_step, (parsed, rejections, limit), step),
        call_ensures(decide_review_loop_step, (parsed, more, limit), later),
        rejections <= more,
    ensures
        step is Block ==> later is Block,
        step is Approved ==> later is Approved,
{
}

// --- The outcome of an implementation and of a merge ---

/// Only an implementation that is ready for review is reviewed. Any other outcome is
/// rejected, and named.
pub proof fn law_only_ready_work_is_reviewed(
    outcome: &str,
    check: Result<(), ImplementationRejection>,
)
    requires
        call_ensures(check_implementation_outcome, (outcome,), check),
    ensures
        check is Ok <==> outcome@ == "ready_for_review"@,
        check matches Err(rejection) ==> (
        rejection matches ImplementationRejection::NotReadyForReview { outcome: named } && named@
            == outcome@),
{
}

/// A merge is blocked if and only if its outcome says so. The reason is the one that it
/// gives; without one, its summary; and without either, that it gave none.
pub proof fn law_merge_decides(parsed: &ParsedMergeOutput, outcome: AssignmentMergeOutcome)
    requires
        call_ensures(decide_merge_outcome, (parsed,), outcome),
    ensures
        outcome is Blocked <==> parsed.outcome@ == "blocked"@,
        outcome is Merged <==> parsed.outcome@ != "blocked"@,
        outcome matches AssignmentMergeOutcome::Blocked { reason } ==> {
            &&& text_field(parsed.body.value@, "block_reason"@) matches Some(given) ==> reason@
                == given
            &&& text_field(parsed.body.value@, "block_reason"@) is None ==> (text_field(
                parsed.body.value@,
                "summary"@,
            ) matches Some(summary) ==> reason@ == summary)
            &&& text_field(parsed.body.value@, "block_reason"@) is None && text_field(
                parsed.body.value@,
                "summary"@,
            ) is None ==> reason@ == "Merge Phase blocked without an explicit reason"@
        },
{
}

/// The summary of a selection is shown as the planner gave it, or said to be missing.
pub proof fn law_selection_summary(assignment: &IssueAssignmentResponse, text: String)
    requires
        call_ensures(selection_summary_or_placeholder, (assignment,), text),
    ensures
        assignment.selection_summary matches Some(summary) ==> text@ == summary@,
        assignment.selection_summary is None ==> text@ == "(no selection summary)"@,
{
}

// --- What an agent printed ---

/// What stands between the first opening tag and the first closing tag behind it is read,
/// without the white space round it, whatever stands before and behind.
pub proof fn law_tagged_text_is_read(
    stdout: &str,
    label: &str,
    tag: &str,
    before: Seq<char>,
    inside: Seq<char>,
    behind: Seq<char>,
    body: Result<String, String>,
)
    requires
        call_ensures(extract_tagged_body, (stdout, label, tag), body),
        stdout@ == before + ("<"@ + tag@ + ">"@) + inside + ("</"@ + tag@ + ">"@) + behind,
        forall|k: int|
            0 <= k < before.len() ==> !#[trigger] matches_at(stdout@, "<"@ + tag@ + ">"@, k),
        forall|k: int|
            0 <= k < before.len() + ("<"@ + tag@ + ">"@).len() + inside.len()
                ==> !#[trigger] matches_at(stdout@, "</"@ + tag@ + ">"@, k),
    ensures
        body matches Ok(read) && read@ == trim(inside),
{
    let opening = "<"@ + tag@ + ">"@;
    let closing = "</"@ + tag@ + ">"@;
    let from = before.len() as int;
    let to = (before.len() + opening.len() + inside.len()) as int;
    assert(stdout@.subrange(from, from + opening.len()) =~= opening);
    assert(matches_at(stdout@, opening, from));
    assert(stdout@.subrange(to, to + closing.len()) =~= closing);
    assert(matches_at(stdout@, closing, to));
    lemma_find_from(stdout@, opening, 0);
    lemma_find_from(stdout@, closing, 0);
    assert(find(stdout@, opening) == Some(from));
    assert(find(stdout@, closing) == Some(to));
    assert(stdout@.subrange(from + opening.len(), to) =~= inside);
}

/// Without one of the tags, or with the closing tag first, nothing is read.
pub proof fn law_missing_tag_is_refused(
    stdout: &str,
    label: &str,
    tag: &str,
    body: Result<String, String>,
)
    requires
        call_ensures(extract_tagged_body, (stdout, label, tag), body),
    ensures
        find(stdout@, "<"@ + tag@ + ">"@) is None ==> (body matches Err(message) && message@
            == label@ + " output missing "@ + ("<"@ + tag@ + ">"@) + " opening tag"@),
        find(stdout@, "<"@ + tag@ + ">"@) is Some && find(stdout@, "</"@ + tag@ + ">"@) is None
            ==> (body matches Err(message) && message@ == label@ + " output missing "@ + ("</"@
            + tag@ + ">"@) + " closing tag"@),
        find(stdout@, "<"@ + tag@ + ">"@) matches Some(from) ==> (find(
            stdout@,
            "</"@ + tag@ + ">"@,
        ) matches Some(to) ==> (to < from ==> body is Err)),
{
}

/// The outcome of an implementation, a review or a merge is the text in the field `outcome`
/// of the JSON between its tags, and this JSON is kept. There is one if and only if the tags
/// are there, what is between them is JSON, and it has such a text.
pub proof fn law_outcome_is_read(
    stdout: &str,
    implemented: Result<ParsedImplementationOutput, String>,
    reviewed: Result<ParsedReviewOutput, String>,
    merged: Result<ParsedMergeOutput, String>,
)
    requires
        call_ensures(parse_implementation_output, (stdout,), implemented),
        call_ensures(parse_review_output, (stdout,), reviewed),
        call_ensures(parse_merge_output, (stdout,), merged),
    ensures
        reads_outcome(
            tagged_body(stdout@, "implementation"@, "impl"@),
            "implementation"@,
            match implemented {
                Ok(parsed) => Ok((parsed.outcome@, parsed.body.text@, parsed.body.value@)),
                Err(message) => Err(message@),
            },
        ),
        reads_outcome(
            tagged_body(stdout@, "review"@, "review"@),
            "review"@,
            match reviewed {
                Ok(parsed) => Ok((parsed.outcome@, parsed.body.text@, parsed.body.value@)),
                Err(message) => Err(message@),
            },
        ),
        reads_outcome(
            tagged_body(stdout@, "merge"@, "merge"@),
            "merge"@,
            match merged {
                Ok(parsed) => Ok((parsed.outcome@, parsed.body.text@, parsed.body.value@)),
                Err(message) => Err(message@),
            },
        ),
{
}

/// What is read of a text between tags: its JSON and the outcome in it, or what is wrong.
pub open spec fn reads_outcome(
    tagged: Result<Seq<char>, Seq<char>>,
    label: Seq<char>,
    read: Result<(Seq<char>, Seq<char>, JsonModel), Seq<char>>,
) -> bool {
    &&& tagged is Err ==> read is Err && read->Err_0 == tagged->Err_0
    &&& tagged is Ok && parsed_json(tagged->Ok_0) is Err ==> read is Err && read->Err_0 == label
        + " output is not valid JSON: "@ + parsed_json(tagged->Ok_0)->Err_0
    &&& tagged is Ok && parsed_json(tagged->Ok_0) is Ok ==> {
        let value = parsed_json(tagged->Ok_0)->Ok_0;
        &&& text_field(value, "outcome"@) is None ==> read is Err && read->Err_0 == label
            + " output is missing `outcome` string"@
        &&& text_field(value, "outcome"@) matches Some(outcome) ==> read is Ok && read->Ok_0 == (
            outcome,
            tagged->Ok_0,
            value,
        )
    }
}

/// A plan is the JSON between `<plan>` and `</plan>` if it has a list of issues; it is empty
/// if and only if that list is.
pub proof fn law_plan_is_read(stdout: &str, parsed: Result<ParsedPlanningOutput, String>)
    requires
        call_ensures(parse_planning_output, (stdout,), parsed),
        tagged_body(stdout@, "planning"@, "plan"@) is Ok,
        parsed_json(tagged_body(stdout@, "planning"@, "plan"@)->Ok_0) is Ok,
    ensures
        parsed is Ok <==> array_field(
            parsed_json(tagged_body(stdout@, "planning"@, "plan"@)->Ok_0)->Ok_0,
            "issues"@,
        ) is Some,
        parsed matches Ok(plan) ==> {
            &&& plan.body.text@ == tagged_body(stdout@, "planning"@, "plan"@)->Ok_0
            &&& plan.body.value@ == parsed_json(plan.body.text@)->Ok_0
            &&& plan.is_empty <==> array_field(plan.body.value@, "issues"@)->0.len() == 0
        },
        parsed matches Err(message) ==> message@ == "planning output is missing `issues` array"@,
{
}

/// What is stored of a phase that failed has the outcome `failed`, and its body holds the
/// error and nothing else.
pub proof fn law_failure_is_stored(phase: &'static str, error: &str, record: PhaseRecord)
    requires
        call_ensures(PhaseRecord::failure, (phase, error), record),
    ensures
        record.phase@ == phase@,
        record.outcome@ == "failed"@,
        text_field(record.body.value@, "error"@) == Some(error@),
        record.body.value@ matches JsonModel::Object(fields) && fields.len() == 1,
{
}

/// The text of a failed seam begins with what failed, and ends in what was said.
pub proof fn law_seam_failure_text(error: PlanRunPhaseError, text: String)
    requires
        call_ensures(PlanRunPhaseError::message, (&error,), text),
    ensures
        match error {
            PlanRunPhaseError::Refresh(said) => text@ == "integration branch refresh failed: "@
                + said@,
            PlanRunPhaseError::Planning(said) => text@ == "planning phase execution failed: "@
                + said@,
            PlanRunPhaseError::Implementation(said) => text@
                == "implementation phase execution failed: "@ + said@,
            PlanRunPhaseError::Review(said) => text@ == "review phase execution failed: "@ + said@,
            PlanRunPhaseError::Merge(said) => text@ == "merge phase execution failed: "@ + said@,
            PlanRunPhaseError::WorktreeProvision(said) => text@
                == "assignment worktree provisioning failed: "@ + said@,
            PlanRunPhaseError::LifecycleWrite(said) => text@
                == "issue lifecycle write-back failed: "@ + said@,
            PlanRunPhaseError::IntegrationPush(said) => text@
                == "integration branch push failed: "@ + said@,
            PlanRunPhaseError::NonFastForward { stderr } => text@
                == "integration branch push rejected as non-fast-forward: "@ + stderr@,
            PlanRunPhaseError::Cleanup(said) => text@ == "assignment worktree cleanup failed: "@
                + said@,
        },
{
}

// --- How a Plan Run ends ---

/// A Plan Run that planned nothing succeeded empty, whatever is among its outcomes. Any other
/// one succeeded if and only if something was merged.
pub proof fn law_plan_run_ends(
    input: PlanRunFinalize,
    terminal: PlanRunTerminal,
    word: &'static str,
)
    requires
        call_ensures(decide_plan_run_terminal, (&input,), terminal),
        call_ensures(PlanRunTerminal::as_str, (terminal,), word),
    ensures
        terminal is SucceededEmpty <==> input.planning_was_empty,
        terminal is Succeeded <==> !input.planning_was_empty && exists|i: int|
            0 <= i < input.outcomes@.len() && (#[trigger] input.outcomes@[i]) is Merged,
        terminal is Succeeded ==> word@ == "succeeded"@,
        terminal is SucceededEmpty ==> word@ == "succeeded_empty"@,
        terminal is Failed ==> word@ == "failed"@,
{
}

// --- What is stored of a status ---

/// The word for a status.
pub open spec fn status_word(status: AssignmentStatus) -> Seq<char> {
    if status is Implementing {
        "implementing"@
    } else if status is Implemented {
        "implemented"@
    } else if status is Reviewed {
        "reviewed"@
    } else if status is Merging {
        "merging"@
    } else if status is MergeStaged {
        "merge_staged"@
    } else if status is Merged {
        "merged"@
    } else {
        "blocked"@
    }
}

/// A block is stored with its reason, and with its detail unless that is empty. Any other
/// status is stored by its word and without a detail.
pub proof fn law_status_is_stored(
    status: AssignmentStatus,
    word: &'static str,
    write: StatusWrite,
)
    requires
        call_ensures(AssignmentStatus::as_str, (&status,), word),
        call_ensures(transition_assignment, (status,), write),
    ensures
        word@ == status_word(status),
        status is Blocked <==> write is RecordBlocked,
        write matches StatusWrite::SetStatus { status: stored } ==> stored@ == status_word(status),
        status matches AssignmentStatus::Blocked { kind, detail } ==> (
        write matches StatusWrite::RecordBlocked { kind: stored, detail: said } && stored == kind
            && (said is None <==> detail@.len() == 0) && (said matches Some(text) ==> text@
            == detail@)),
{
}

/// The words for a status, a Plan Run, the reasons of a block and the bodies of the phases, and that a reason is read
/// from its own word alone.
pub proof fn law_words(
    kind: AssignmentStatusKind,
    kind_word: &'static str,
    state: PlanRunState,
    state_word: &'static str,
    reason: BlockReason,
    reason_word: &'static str,
    read: Option<BlockReason>,
    body: PhaseOutputBody,
    tag: &'static str,
)
    requires
        call_ensures(PhaseOutputBody::phase_tag, (&body,), tag),
        call_ensures(AssignmentStatusKind::as_wire, (kind,), kind_word),
        call_ensures(PlanRunState::as_wire, (state,), state_word),
        call_ensures(BlockReason::as_wire, (reason,), reason_word),
        call_ensures(BlockReason::from_wire, (reason_word,), read),
    ensures
        kind is Implementing ==> kind_word@ == "implementing"@,
        kind is Implemented ==> kind_word@ == "implemented"@,
        kind is Reviewed ==> kind_word@ == "reviewed"@,
        kind is Merging ==> kind_word@ == "merging"@,
        kind is MergeStaged ==> kind_word@ == "merge_staged"@,
        kind is Merged ==> kind_word@ == "merged"@,
        kind is Blocked ==> kind_word@ == "blocked"@,
        state is Running ==> state_word@ == "running"@,
        state is Finished ==> state_word@ == "finished"@,
        reason is ReviewRetryLimitExhausted ==> reason_word@ == "review_retry_limit_exhausted"@,
        reason is MergePhaseFailed ==> reason_word@ == "merge_phase_failed"@,
        reason is PushNonFastForward ==> reason_word@ == "push_non_fast_forward"@,
        reason is AbandonedStaged ==> reason_word@ == "abandoned_staged"@,
        reason is OrchestratorRestart ==> reason_word@ == "orchestrator_restart"@,
        read == Some(reason),
        body is Planning ==> tag@ == "planning"@,
        body is Implementation ==> tag@ == "implementation"@,
        body is Review ==> tag@ == "review"@,
        body is Merge ==> tag@ == "merge"@,
        body is Push ==> tag@ == "push"@,
        body is Failed ==> tag@ == "failed"@,
{
    if let Some(other) = read {
        crate::contracts::law_block_reason_wire_is_injective(other, reason);
    } else {
        assert(reason.wire() != reason_word@);
    }
}

// --- How failures are reported ---

/// What is not there is reported as missing, what is there already or under way as a
/// conflict, what cannot be taken as a request that cannot be processed, and a failed
/// database as an error of the server; each kind under a problem type of its own, and with
/// its message.
pub proof fn law_persistence_failure_is_reported(
    error: PersistenceError,
    reported: CoordinatorError,
)
    requires
        call_ensures(CoordinatorError::from_persistence, (error,), reported),
    ensures
        reported.detail@ == error.message@,
        reported.status == 404 <==> (error.kind is NotFound || error.kind is SnapshotNotFound
            || error.kind is AssignmentNotFound),
        reported.status == 409 <==> (error.kind is Duplicate || error.kind is ActiveAssignment),
        reported.status == 422 <==> (error.kind is InvalidPath || error.kind is InvalidIssueSource),
        reported.status == 500 <==> error.kind is Database,
        error.kind is NotFound ==> reported.problem_type@ == "urn:agentic-afk:not-found"@,
        error.kind is Duplicate ==> reported.problem_type@ == "urn:agentic-afk:duplicate"@,
        error.kind is InvalidPath ==> reported.problem_type@ == "urn:agentic-afk:invalid-path"@,
        error.kind is InvalidIssueSource ==> reported.problem_type@
            == "urn:agentic-afk:invalid-issue-source"@,
        error.kind is SnapshotNotFound ==> reported.problem_type@
            == "urn:agentic-afk:planning-snapshot-not-found"@,
        error.kind is ActiveAssignment ==> reported.problem_type@
            == "urn:agentic-afk:active-assignment"@,
        error.kind is AssignmentNotFound ==> reported.problem_type@
            == "urn:agentic-afk:assignment-not-found"@,
        error.kind is Database ==> reported.problem_type@ == "urn:agentic-afk:internal-error"@,
{
}

/// A phase that gave nothing usable is reported as an error of the server: under which
/// problem type says whether it failed or could not be read, and the detail says why.
pub proof fn law_rejected_phase_is_reported(
    implementation: ImplementationRejection,
    implementation_error: CoordinatorError,
    review: ReviewLoopRejection,
    review_error: CoordinatorError,
    merge: MergeRejection,
    merge_error: CoordinatorError,
)
    requires
        call_ensures(
            <CoordinatorError as From<ImplementationRejection>>::from,
            (implementation,),
            implementation_error,
        ),
        call_ensures(
            <CoordinatorError as From<ReviewLoopRejection>>::from,
            (review,),
            review_error,
        ),
        call_ensures(<CoordinatorError as From<MergeRejection>>::from, (merge,), merge_error),
    ensures
        implementation_error.status == 500,
        review_error.status == 500,
        merge_error.status == 500,
        implementation matches ImplementationRejection::PhaseFailed(error)
            ==> implementation_error.problem_type@ == "urn:agentic-afk:implementation-phase-failed"@
            && implementation_error.detail@ == error@,
        implementation matches ImplementationRejection::Unparseable(error)
            ==> implementation_error.problem_type@
            == "urn:agentic-afk:implementation-output-unparseable"@ && implementation_error.detail@
            == error@,
        implementation matches ImplementationRejection::NotReadyForReview { outcome }
            ==> implementation_error.problem_type@ == "urn:agentic-afk:implementation-not-ready"@
            && implementation_error.detail@ == "implementation outcome `"@ + outcome@
            + "` does not enter Review Phase"@,
        review matches ReviewLoopRejection::PhaseFailed(error) ==> review_error.problem_type@
            == "urn:agentic-afk:review-phase-failed"@ && review_error.detail@ == error@,
        review matches ReviewLoopRejection::Unparseable(error) ==> review_error.problem_type@
            == "urn:agentic-afk:review-output-unparseable"@ && review_error.detail@ == error@,
        merge matches MergeRejection::Unparseable(error) ==> merge_error.problem_type@
            == "urn:agentic-afk:merge-output-unparseable"@ && merge_error.detail@ == error@,
{
}

/// A rejected plan is reported as an error of the server, which says what is wrong: how many
/// issues were selected and how many may be, or which one may not.
pub proof fn law_rejected_plan_is_reported(rejection: PlanningRejection, error: CoordinatorError)
    requires
        call_ensures(<CoordinatorError as From<PlanningRejection>>::from, (rejection,), error),
    ensures
        error.status == 500,
        match rejection {
            PlanningRejection::Unparseable(message) => error.problem_type@
                == "urn:agentic-afk:planning-output-unparseable"@ && error.detail@ == message@,
            PlanningRejection::ExceedsMaxParallel { got, cap } => error.problem_type@
                == "urn:agentic-afk:planning-exceeds-max-parallel"@ && error.detail@
                == "Planning Phase returned "@ + decimal(got as nat)
                + " issues but Project Max Parallel Tasks is "@ + decimal(cap as nat),
            PlanningRejection::IneligibleSelection { source_id } => error.problem_type@
                == "urn:agentic-afk:planning-selection-ineligible"@ && error.detail@
                == "Planning Phase selected Source Issue "@ + source_id@
                + " which is not in the eligible set"@,
            PlanningRejection::MissingIssueSource => error.problem_type@
                == "urn:agentic-afk:issue-source-missing"@ && error.detail@
                == "Project has no enabled Issue Source for claim write-back"@,
        },
{
}

/// A request to abandon staged work has no note unless one is given, and copies are what was
/// copied.
pub proof fn law_plain_values(
    request: AbandonStagedRequest,
    source: &IssueSource,
    source_copy: IssueSource,
    summary: &GitSummary,
    summary_copy: GitSummary,
)
    requires
        call_ensures(<AbandonStagedRequest as Default>::default, (), request),
        call_ensures(copy_issue_source, (source,), source_copy),
        call_ensures(copy_git_summary, (summary,), summary_copy),
    ensures
        request.note is None,
        source_copy.kind@ == source.kind@ && source_copy.locator@ == source.locator@,
        summary_copy.branch == summary.branch && summary_copy.head == summary.head
            && summary_copy.dirty == summary.dirty && summary_copy.default_branch
            == summary.default_branch,
{
}

} // verus!
