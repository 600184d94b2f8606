//! What the prompts of the phases say.

use vstd::prelude::*;

#[allow(unused_imports)]
use crate::contracts::{
    IssueAssignmentResponse, PlanRunResponse, ProjectExecutionConfigResponse, ProjectResponse,
    SourceIssueSnapshot,
};
#[allow(unused_imports)]
use crate::implementation_phase::{assignment_prompt_base, render_implementation_prompt};
#[allow(unused_imports)]
use crate::json::{field, json_pretty, text_field, Json, JsonDocument};
#[allow(unused_imports)]
use crate::merge_phase::render_merge_prompt;
#[allow(unused_imports)]
use crate::numerals::decimal_int;
#[allow(unused_imports)]
use crate::plan_run::{ParsedPlanningOutput, RefreshedBaseline};
#[allow(unused_imports)]
use crate::planning_phase::{
    copy_issue, extract_planner_selections, indent_lines, issue_entry, padded,
    read_planner_selection, render_eligible_source_issues, render_planning_prompt,
    validate_planner_selection, PlannedClaim, PlannerSelection, PlanningRejection,
};
#[allow(unused_imports)]
use crate::prompt::{fill, filled};
#[allow(unused_imports)]
use crate::review_loop::render_review_prompt;
#[allow(unused_imports)]
use crate::text::{contains_text, matches_at};
#[allow(unused_imports)]
use crate::text_parts::{join, lemma_index_of_char, line_content, lines, replace_all};

verus! {

// --- Replacing ---

/// Where what is to be replaced does not stand, nothing changes.
pub proof fn law_nothing_to_replace(text: Seq<char>, from: Seq<char>, to: Seq<char>)
    requires
        forall|k: int| !#[trigger] matches_at(text, from, k),
    ensures
        replace_all(text, from, to) == text,
    decreases text.len(),
{
    if text.len() > 0 {
        let rest = text.skip(1);
        assert forall|k: int| !#[trigger] matches_at(rest, from, k) by {
            if matches_at(rest, from, k) {
                assert(text.subrange(k + 1, k + 1 + from.len()) =~= rest.subrange(
                    k,
                    k + from.len(),
                ));
                assert(matches_at(text, from, k + 1));
            }
        }
        law_nothing_to_replace(rest, from, to);
        assert(!matches_at(text, from, 0));
        assert(seq![text[0]] + rest =~= text);
    }
}

/// The first place at which it stands is replaced, what comes before is kept, and what comes
/// behind is replaced in the same way.
pub proof fn law_first_is_replaced(
    before: Seq<char>,
    from: Seq<char>,
    behind: Seq<char>,
    to: Seq<char>,
)
    requires
        from.len() > 0,
        forall|k: int|
            0 <= k < before.len() ==> !#[trigger] matches_at(before + from + behind, from, k),
    ensures
        replace_all(before + from + behind, from, to) == before + to + replace_all(
            behind,
            from,
            to,
        ),
    decreases before.len(),
{
    let text = before + from + behind;
    if before.len() == 0 {
        assert(text.subrange(0, from.len() as int) =~= from);
        assert(matches_at(text, from, 0));
        assert(text.skip(from.len() as int) =~= behind);
        assert(before + to + replace_all(behind, from, to) =~= to + replace_all(behind, from, to));
    } else {
        let rest = before.skip(1);
        let shorter = rest + from + behind;
        assert(text.skip(1) =~= shorter);
        assert forall|k: int| 0 <= k < rest.len() implies !#[trigger] matches_at(
            shorter,
            from,
            k,
        ) by {
            if matches_at(shorter, from, k) {
                assert(text.subrange(k + 1, k + 1 + from.len()) =~= shorter.subrange(
                    k,
                    k + from.len(),
                ));
                assert(matches_at(text, from, k + 1));
            }
        }
        law_first_is_replaced(rest, from, behind, to);
        assert(!matches_at(text, from, 0));
        assert(seq![text[0]] + (rest + to + replace_all(behind, from, to)) =~= before + to
            + replace_all(behind, from, to));
    }
}

// --- Placeholders ---

/// The text holds no opening brace, and so no placeholder.
pub open spec fn no_brace(text: Seq<char>) -> bool {
    forall|k: int| 0 <= k < text.len() ==> #[trigger] text[k] != '{'
}

/// The name holds no brace.
pub open spec fn is_name(name: Seq<char>) -> bool {
    forall|k: int| 0 <= k < name.len() ==> #[trigger] name[k] != '{' && name[k] != '}'
}

/// A template with one placeholder.
pub open spec fn with_placeholder(before: Seq<char>, name: Seq<char>, behind: Seq<char>) -> Seq<
    char,
> {
    before + ("{{"@ + name + "}}"@) + behind
}

proof fn lemma_clean(text: Seq<char>, name: Seq<char>, value: Seq<char>)
    requires
        no_brace(text),
    ensures
        filled(text, name, value) == text,
{
    let from = "{{"@ + name + "}}"@;
    reveal_strlit("{{");
    reveal_strlit("}}");
    assert forall|k: int| !#[trigger] matches_at(text, from, k) by {
        if matches_at(text, from, k) {
            assert(text.subrange(k, k + from.len())[0] == text[k]);
            assert(from[0] == '{');
        }
    }
    law_nothing_to_replace(text, from, value);
}

/// A placeholder is replaced by its value, and a placeholder of another name is left alone.
pub proof fn law_placeholder_is_filled(
    before: Seq<char>,
    name: Seq<char>,
    behind: Seq<char>,
    other: Seq<char>,
    value: Seq<char>,
)
    requires
        no_brace(before),
        no_brace(behind),
        is_name(name),
        is_name(other),
    ensures
        filled(with_placeholder(before, name, behind), name, value) == before + value + behind,
        other != name ==> filled(with_placeholder(before, name, behind), other, value)
            == with_placeholder(before, name, behind),
{
    let text = with_placeholder(before, name, behind);
    let from = "{{"@ + name + "}}"@;
    let another = "{{"@ + other + "}}"@;
    reveal_strlit("{{");
    reveal_strlit("}}");
    assert forall|k: int| 0 <= k < before.len() implies !#[trigger] matches_at(text, from, k) by {
        if matches_at(text, from, k) {
            assert(text.subrange(k, k + from.len())[0] == text[k]);
            assert(text[k] == before[k]);
        }
    }
    law_first_is_replaced(before, from, behind, value);
    lemma_clean(behind, name, value);
    if other != name {
        assert forall|k: int| !#[trigger] matches_at(text, another, k) by {
            if matches_at(text, another, k) {
                let found = text.subrange(k, k + another.len());
                assert(found == another);
                assert(found[0] == text[k] && found[1] == text[k + 1]);
                assert(another[0] == '{' && another[1] == '{');
                let at = before.len() as int;
                assert(forall|j: int|
                    0 <= j < name.len() ==> text[at + 2 + j] == #[trigger] name[j]);
                if k < at {
                    assert(text[k] == before[k]);
                } else if k > at {
                    let j = k + 1 - at - 2;
                    if j < name.len() {
                        assert(text[at + 2 + j] == name[j]);
                    } else if j < name.len() + 2 {
                        assert(text[k + 1] == '}');
                    } else {
                        assert(text[k + 1] == behind[j - name.len() - 2]);
                    }
                } else {
                    assert(forall|j: int|
                        0 <= j < other.len() ==> found[2 + j] == #[trigger] other[j]);
                    if other.len() < name.len() {
                        assert(found[other.len() + 2int] == '}');
                        assert(text[at + 2 + other.len()] == name[other.len() as int]);
                    } else if other.len() > name.len() {
                        assert(text[at + 2 + name.len()] == '}');
                        assert(found[name.len() + 2int] == other[name.len() as int]);
                    } else {
                        assert forall|j: int| 0 <= j < name.len() implies name[j] == other[j] by {
                            assert(found[2 + j] == text[at + 2 + j]);
                        }
                        assert(name =~= other);
                    }
                }
                assert(false);
            }
        }
        law_nothing_to_replace(text, another, value);
    }
}

/// What one fill makes of a template with one placeholder, or of one that was filled.
proof fn lemma_step(
    text: Seq<char>,
    before: Seq<char>,
    name: Seq<char>,
    behind: Seq<char>,
    value: Seq<char>,
    other: Seq<char>,
    put: Seq<char>,
)
    requires
        no_brace(before),
        no_brace(behind),
        no_brace(value),
        is_name(name),
        is_name(other),
        text == with_placeholder(before, name, behind) || text == before + value + behind,
        name == other ==> put == value,
    ensures
        name == other ==> filled(text, other, put) == before + value + behind,
        name != other ==> filled(text, other, put) == text,
{
    if text == with_placeholder(before, name, behind) {
        law_placeholder_is_filled(before, name, behind, other, put);
    }
    if text == before + value + behind {
        assert(no_brace(text)) by {
            assert forall|k: int| 0 <= k < text.len() implies #[trigger] text[k] != '{' by {
                if k < before.len() {
                    assert(text[k] == before[k]);
                } else if k < before.len() + value.len() {
                    assert(text[k] == value[k - before.len()]);
                } else {
                    assert(text[k] == behind[k - before.len() - value.len()]);
                }
            }
        }
        lemma_clean(text, other, put);
    }
}

proof fn lemma_names()
    ensures
        is_name("PROJECT_INSTRUCTIONS"@),
        is_name("PROJECT_NAME"@),
        is_name("PLAN_RUN_ID"@),
        is_name("PLAN_RUN_BASELINE"@),
        is_name("INTEGRATION_BRANCH"@),
        is_name("SOURCE_ISSUE_ID"@),
        is_name("SOURCE_ISSUE_TITLE"@),
        is_name("ISSUE_BRANCH"@),
        is_name("SOURCE_ISSUE_BRIEF"@),
        is_name("REVIEW_FINDINGS"@),
        is_name("IMPLEMENTATION_PHASE_OUTPUT"@),
        is_name("SELECTION_SUMMARY"@),
        is_name("REVIEW_PHASE_OUTPUT"@),
        is_name("MAX_PARALLEL_TASKS"@),
        is_name("ELIGIBLE_SOURCE_ISSUES"@),
        "PROJECT_INSTRUCTIONS"@.len() == 20,
        "PROJECT_NAME"@.len() == 12,
        "PROJECT_NAME"@[0] == 'P',
        "PLAN_RUN_ID"@.len() == 11,
        "PLAN_RUN_BASELINE"@.len() == 17,
        "PLAN_RUN_BASELINE"@[0] == 'P',
        "INTEGRATION_BRANCH"@.len() == 18,
        "INTEGRATION_BRANCH"@[13] == 'R',
        "SOURCE_ISSUE_ID"@.len() == 15,
        "SOURCE_ISSUE_ID"@[0] == 'S',
        "SOURCE_ISSUE_TITLE"@.len() == 18,
        "SOURCE_ISSUE_TITLE"@[13] == 'T',
        "ISSUE_BRANCH"@.len() == 12,
        "ISSUE_BRANCH"@[0] == 'I',
        "SOURCE_ISSUE_BRIEF"@.len() == 18,
        "SOURCE_ISSUE_BRIEF"@[13] == 'B',
        "REVIEW_FINDINGS"@.len() == 15,
        "REVIEW_FINDINGS"@[0] == 'R',
        "IMPLEMENTATION_PHASE_OUTPUT"@.len() == 27,
        "SELECTION_SUMMARY"@.len() == 17,
        "SELECTION_SUMMARY"@[0] == 'S',
        "REVIEW_PHASE_OUTPUT"@.len() == 19,
        "MAX_PARALLEL_TASKS"@.len() == 18,
        "MAX_PARALLEL_TASKS"@[13] == 'T',
        "MAX_PARALLEL_TASKS"@[0] == 'M',
        "SOURCE_ISSUE_TITLE"@[0] == 'S',
        "ELIGIBLE_SOURCE_ISSUES"@.len() == 22,
{
    reveal_strlit("PROJECT_INSTRUCTIONS");
    reveal_strlit("PROJECT_NAME");
    reveal_strlit("PLAN_RUN_ID");
    reveal_strlit("PLAN_RUN_BASELINE");
    reveal_strlit("INTEGRATION_BRANCH");
    reveal_strlit("SOURCE_ISSUE_ID");
    reveal_strlit("SOURCE_ISSUE_TITLE");
    reveal_strlit("ISSUE_BRANCH");
    reveal_strlit("SOURCE_ISSUE_BRIEF");
    reveal_strlit("REVIEW_FINDINGS");
    reveal_strlit("IMPLEMENTATION_PHASE_OUTPUT");
    reveal_strlit("SELECTION_SUMMARY");
    reveal_strlit("REVIEW_PHASE_OUTPUT");
    reveal_strlit("MAX_PARALLEL_TASKS");
    reveal_strlit("ELIGIBLE_SOURCE_ISSUES");
}

/// The placeholder that the prompts of an assignment share, and what it stands for.
pub open spec fn stands_for(
    name: Seq<char>,
    value: Seq<char>,
    project_instructions: Seq<char>,
    project: ProjectResponse,
    plan_run: PlanRunResponse,
    baseline: RefreshedBaseline,
    config: ProjectExecutionConfigResponse,
    assignment: IssueAssignmentResponse,
) -> bool {
    ||| name == "PROJECT_INSTRUCTIONS"@ && value == project_instructions
    ||| name == "PROJECT_NAME"@ && value == project.path@
    ||| name == "PLAN_RUN_ID"@ && value == plan_run.id@
    ||| name == "PLAN_RUN_BASELINE"@ && value == baseline.commit_sha@
    ||| name == "INTEGRATION_BRANCH"@ && value == config.integration_branch@
    ||| name == "SOURCE_ISSUE_ID"@ && value == assignment.source_id@
    ||| name == "SOURCE_ISSUE_TITLE"@ && value == assignment.source_title@
    ||| name == "ISSUE_BRANCH"@ && value == assignment.branch@
}

proof fn lemma_shared(
    before: Seq<char>,
    name: Seq<char>,
    behind: Seq<char>,
    value: Seq<char>,
    project_instructions: Seq<char>,
    project: ProjectResponse,
    plan_run: PlanRunResponse,
    baseline: RefreshedBaseline,
    config: ProjectExecutionConfigResponse,
    assignment: IssueAssignmentResponse,
)
    requires
        no_brace(before),
        no_brace(behind),
        no_brace(value),
        is_name(name),
        stands_for(
            name,
            value,
            project_instructions,
            project,
            plan_run,
            baseline,
            config,
            assignment,
        ) || name == "SOURCE_ISSUE_BRIEF"@ || name == "REVIEW_FINDINGS"@ || name
            == "IMPLEMENTATION_PHASE_OUTPUT"@ || name == "SELECTION_SUMMARY"@ || name
            == "REVIEW_PHASE_OUTPUT"@,
    ensures
        assignment_prompt_base(
            with_placeholder(before, name, behind),
            project_instructions,
            project,
            plan_run,
            baseline,
            config,
            assignment,
        ) == (if stands_for(
            name,
            value,
            project_instructions,
            project,
            plan_run,
            baseline,
            config,
            assignment,
        ) {
            before + value + behind
        } else {
            with_placeholder(before, name, behind)
        }),
{
    lemma_names();
    let t = with_placeholder(before, name, behind);
    let a = filled(t, "PROJECT_INSTRUCTIONS"@, project_instructions);
    lemma_step(t, before, name, behind, value, "PROJECT_INSTRUCTIONS"@, project_instructions);
    let b = filled(a, "PROJECT_NAME"@, project.path@);
    lemma_step(a, before, name, behind, value, "PROJECT_NAME"@, project.path@);
    let c = filled(b, "PLAN_RUN_ID"@, plan_run.id@);
    lemma_step(b, before, name, behind, value, "PLAN_RUN_ID"@, plan_run.id@);
    let d = filled(c, "PLAN_RUN_BASELINE"@, baseline.commit_sha@);
    lemma_step(c, before, name, behind, value, "PLAN_RUN_BASELINE"@, baseline.commit_sha@);
    let e = filled(d, "INTEGRATION_BRANCH"@, config.integration_branch@);
    lemma_step(d, before, name, behind, value, "INTEGRATION_BRANCH"@, config.integration_branch@);
    let f = filled(e, "SOURCE_ISSUE_ID"@, assignment.source_id@);
    lemma_step(e, before, name, behind, value, "SOURCE_ISSUE_ID"@, assignment.source_id@);
    let g = filled(f, "SOURCE_ISSUE_TITLE"@, assignment.source_title@);
    lemma_step(f, before, name, behind, value, "SOURCE_ISSUE_TITLE"@, assignment.source_title@);
    lemma_step(g, before, name, behind, value, "ISSUE_BRANCH"@, assignment.branch@);
}

/// The implementation prompt is its template, in which each placeholder holds what it stands
/// for: the facts of the assignment, the brief of its issue, and the findings of the review
/// before.
pub proof fn law_implementation_prompt(
    template: &str,
    project_instructions: &str,
    project: &ProjectResponse,
    plan_run: &PlanRunResponse,
    baseline: &RefreshedBaseline,
    config: &ProjectExecutionConfigResponse,
    assignment: &IssueAssignmentResponse,
    brief: &str,
    findings: &str,
    prompt: String,
    before: Seq<char>,
    name: Seq<char>,
    behind: Seq<char>,
    value: Seq<char>,
)
    requires
        call_ensures(
            render_implementation_prompt,
            (
                template,
                project_instructions,
                project,
                plan_run,
                baseline,
                config,
                assignment,
                brief,
                findings,
            ),
            prompt,
        ),
        template@ == with_placeholder(before, name, behind),
        no_brace(before),
        no_brace(behind),
        no_brace(value),
        stands_for(
            name,
            value,
            project_instructions@,
            *project,
            *plan_run,
            *baseline,
            *config,
            *assignment,
        ) || (name == "SOURCE_ISSUE_BRIEF"@ && value == brief@) || (name == "REVIEW_FINDINGS"@
            && value == findings@),
    ensures
        prompt@ == before + value + behind,
{
    lemma_names();
    lemma_shared(
        before,
        name,
        behind,
        value,
        project_instructions@,
        *project,
        *plan_run,
        *baseline,
        *config,
        *assignment,
    );
    let base = assignment_prompt_base(
        template@,
        project_instructions@,
        *project,
        *plan_run,
        *baseline,
        *config,
        *assignment,
    );
    lemma_step(base, before, name, behind, value, "SOURCE_ISSUE_BRIEF"@, brief@);
    let briefed = filled(base, "SOURCE_ISSUE_BRIEF"@, brief@);
    lemma_step(briefed, before, name, behind, value, "REVIEW_FINDINGS"@, findings@);
}

/// The review prompt is its template, in which each placeholder holds what it stands for: the
/// facts of the assignment, the brief of its issue, and what the implementation gave.
pub proof fn law_review_prompt(
    template: &str,
    project_instructions: &str,
    project: &ProjectResponse,
    plan_run: &PlanRunResponse,
    baseline: &RefreshedBaseline,
    config: &ProjectExecutionConfigResponse,
    assignment: &IssueAssignmentResponse,
    brief: &str,
    implemented: &JsonDocument,
    prompt: String,
    before: Seq<char>,
    name: Seq<char>,
    behind: Seq<char>,
    value: Seq<char>,
)
    requires
        call_ensures(
            render_review_prompt,
            (
                template,
                project_instructions,
                project,
                plan_run,
                baseline,
                config,
                assignment,
                brief,
                implemented,
            ),
            prompt,
        ),
        template@ == with_placeholder(before, name, behind),
        no_brace(before),
        no_brace(behind),
        no_brace(value),
        stands_for(
            name,
            value,
            project_instructions@,
            *project,
            *plan_run,
            *baseline,
            *config,
            *assignment,
        ) || (name == "SOURCE_ISSUE_BRIEF"@ && value == brief@) || (name
            == "IMPLEMENTATION_PHASE_OUTPUT"@ && value == json_pretty(implemented.text@)),
    ensures
        prompt@ == before + value + behind,
{
    lemma_names();
    lemma_shared(
        before,
        name,
        behind,
        value,
        project_instructions@,
        *project,
        *plan_run,
        *baseline,
        *config,
        *assignment,
    );
    let base = assignment_prompt_base(
        template@,
        project_instructions@,
        *project,
        *plan_run,
        *baseline,
        *config,
        *assignment,
    );
    let printed = json_pretty(implemented.text@);
    lemma_step(base, before, name, behind, value, "SOURCE_ISSUE_BRIEF"@, brief@);
    let briefed = filled(base, "SOURCE_ISSUE_BRIEF"@, brief@);
    lemma_step(briefed, before, name, behind, value, "IMPLEMENTATION_PHASE_OUTPUT"@, printed);
}

/// The merge prompt is its template, in which each placeholder holds what it stands for: the
/// facts of the assignment, why it was selected, and what the approving review gave.
pub proof fn law_merge_prompt(
    template: &str,
    project_instructions: &str,
    project: &ProjectResponse,
    plan_run: &PlanRunResponse,
    baseline: &RefreshedBaseline,
    config: &ProjectExecutionConfigResponse,
    assignment: &IssueAssignmentResponse,
    reviewed: &JsonDocument,
    prompt: String,
    before: Seq<char>,
    name: Seq<char>,
    behind: Seq<char>,
    value: Seq<char>,
)
    requires
        call_ensures(
            render_merge_prompt,
            (
                template,
                project_instructions,
                project,
                plan_run,
                baseline,
                config,
                assignment,
                reviewed,
            ),
            prompt,
        ),
        template@ == with_placeholder(before, name, behind),
        no_brace(before),
        no_brace(behind),
        no_brace(value),
        stands_for(
            name,
            value,
            project_instructions@,
            *project,
            *plan_run,
            *baseline,
            *config,
            *assignment,
        ) || (name == "SELECTION_SUMMARY"@ && (assignment.selection_summary matches Some(summary)
            && value == summary@)) || (name == "SELECTION_SUMMARY"@ && assignment.selection_summary
            is None && value == "(no selection summary)"@) || (name == "REVIEW_PHASE_OUTPUT"@
            && value == json_pretty(reviewed.text@)),
    ensures
        prompt@ == before + value + behind,
{
    lemma_names();
    lemma_shared(
        before,
        name,
        behind,
        value,
        project_instructions@,
        *project,
        *plan_run,
        *baseline,
        *config,
        *assignment,
    );
    let base = assignment_prompt_base(
        template@,
        project_instructions@,
        *project,
        *plan_run,
        *baseline,
        *config,
        *assignment,
    );
    let printed = json_pretty(reviewed.text@);
    let selection = crate::merge_phase::selection_text(*assignment);
    lemma_step(base, before, name, behind, value, "SELECTION_SUMMARY"@, selection);
    let summarised = filled(base, "SELECTION_SUMMARY"@, selection);
    lemma_step(summarised, before, name, behind, value, "REVIEW_PHASE_OUTPUT"@, printed);
}

/// The planning prompt is its template, in which each placeholder holds what it stands for:
/// the facts of the Project, how many tasks it runs in parallel, and the eligible issues.
pub proof fn law_planning_prompt(
    template: &str,
    project_instructions: &str,
    project: &ProjectResponse,
    config: &ProjectExecutionConfigResponse,
    baseline: &RefreshedBaseline,
    eligible: &Vec<SourceIssueSnapshot>,
    prompt: String,
    listed: String,
    before: Seq<char>,
    name: Seq<char>,
    behind: Seq<char>,
    value: Seq<char>,
)
    requires
        call_ensures(
            render_planning_prompt,
            (template, project_instructions, project, config, baseline, eligible),
            prompt,
        ),
        call_ensures(render_eligible_source_issues, (eligible,), listed),
        template@ == with_placeholder(before, name, behind),
        no_brace(before),
        no_brace(behind),
        no_brace(value),
        (name == "PROJECT_INSTRUCTIONS"@ && value == project_instructions@) || (name
            == "PROJECT_NAME"@ && value == project.path@) || (name == "INTEGRATION_BRANCH"@ && value
            == config.integration_branch@) || (name == "PLAN_RUN_BASELINE"@ && value
            == baseline.commit_sha@) || (name == "MAX_PARALLEL_TASKS"@ && value == decimal_int(
            config.max_parallel_tasks as int,
        )) || (name == "ELIGIBLE_SOURCE_ISSUES"@ && value == listed@),
    ensures
        prompt@ == before + value + behind,
{
    lemma_names();
    let t = template@;
    let tasks = decimal_int(config.max_parallel_tasks as int);
    let a = filled(t, "PROJECT_INSTRUCTIONS"@, project_instructions@);
    lemma_step(t, before, name, behind, value, "PROJECT_INSTRUCTIONS"@, project_instructions@);
    let b = filled(a, "PROJECT_NAME"@, project.path@);
    lemma_step(a, before, name, behind, value, "PROJECT_NAME"@, project.path@);
    let c = filled(b, "INTEGRATION_BRANCH"@, config.integration_branch@);
    lemma_step(b, before, name, behind, value, "INTEGRATION_BRANCH"@, config.integration_branch@);
    let d = filled(c, "PLAN_RUN_BASELINE"@, baseline.commit_sha@);
    lemma_step(c, before, name, behind, value, "PLAN_RUN_BASELINE"@, baseline.commit_sha@);
    let e = filled(d, "MAX_PARALLEL_TASKS"@, tasks);
    lemma_step(d, before, name, behind, value, "MAX_PARALLEL_TASKS"@, tasks);
    lemma_step(e, before, name, behind, value, "ELIGIBLE_SOURCE_ISSUES"@, listed@);
}

// --- The eligible issues ---

/// The eligible issues are listed in their order, each by its identifier, its title and its
/// text, with an empty line between each two: one issue more adds its entry behind those that
/// were there. Without an issue it is said that there is none.
pub proof fn law_eligible_issues_are_listed(
    eligible: &Vec<SourceIssueSnapshot>,
    more: &Vec<SourceIssueSnapshot>,
    issue: SourceIssueSnapshot,
    listed: String,
    longer: String,
    raw: &str,
    text: String,
)
    requires
        call_ensures(render_eligible_source_issues, (eligible,), listed),
        call_ensures(render_eligible_source_issues, (more,), longer),
        call_ensures(indent_lines, (raw, 4), text),
        more@ == eligible@.push(issue),
        issue.raw_text@ == raw@,
    ensures
        eligible@.len() == 0 ==> listed@ == "(no eligible Source Issues)"@,
        ({
            let entry = "- source_id: "@ + issue.source_id@ + "\n  title: "@ + issue.title@
                + "\n  raw:\n"@ + text@;
            longer@ == (if eligible@.len() == 0 {
                entry
            } else {
                listed@ + "\n\n"@ + entry
            })
        }),
{
    let entries = eligible@.map_values(|issue: SourceIssueSnapshot| issue_entry(issue));
    let all = more@.map_values(|issue: SourceIssueSnapshot| issue_entry(issue));
    assert(all.drop_last() =~= entries);
    assert(all.last() == issue_entry(issue));
}

/// Each line gets the spaces in front: the first line of a text, and those behind it in the
/// same way. A text without a line stays empty.
pub proof fn law_each_line_is_indented(
    line: Seq<char>,
    rest: Seq<char>,
    spaces: usize,
    text: &str,
    indented_text: String,
    tail: &str,
    indented_tail: String,
    alone: &str,
    indented_alone: String,
)
    requires
        call_ensures(indent_lines, (text, spaces), indented_text),
        call_ensures(indent_lines, (tail, spaces), indented_tail),
        call_ensures(indent_lines, (alone, spaces), indented_alone),
        forall|k: int| 0 <= k < line.len() ==> line[k] != '\n',
        text@ == line + seq!['\n'] + rest,
        rest.len() > 0,
        tail@ == rest,
        alone@ == line,
    ensures
        line.len() > 0 ==> indented_alone@ == Seq::new(spaces as nat, |i: int| ' ') + line,
        line.len() == 0 ==> indented_alone@.len() == 0,
        indented_text@ == Seq::new(spaces as nat, |i: int| ' ') + line_content(line) + "\n"@
            + indented_tail@,
{
    let n = spaces as int;
    lemma_index_of_char(line, '\n');
    lemma_index_of_char(text@, '\n');
    let at = crate::text_parts::index_of_char(text@, '\n');
    assert(text@[line.len() as int] == '\n');
    assert(forall|k: int| 0 <= k < line.len() ==> text@[k] == line[k]);
    assert(at == line.len());
    assert(text@.take(at) =~= line);
    assert(text@.skip(at + 1) =~= rest);
    assert(lines(text@) =~= seq![line_content(line)] + lines(rest));
    let pad = |line: Seq<char>| padded(line, n);
    let first = seq![padded(line_content(line), n)];
    let others = lines(rest).map_values(pad);
    assert(lines(text@).map_values(pad) =~= first + others);
    assert(lines(rest).len() > 0);
    crate::text_parts::lemma_join_append(first, others, "\n"@);
    assert(join(first, "\n"@) == padded(line_content(line), n));
    if line.len() > 0 {
        assert(lines(line) =~= seq![line]);
        assert(lines(line).map_values(pad) =~= seq![padded(line, n)]);
    } else {
        assert(lines(line).map_values(pad) =~= seq![]);
    }
}

// --- What the planner selected ---

/// An entry of the planner is a selection if and only if it has three texts, and a summary
/// that is a text where there is one. The selection holds these texts, and an empty summary
/// where there is none. Otherwise the first field that is missing is named.
pub proof fn law_selection_is_read(item: &Json, selection: Result<PlannerSelection, String>)
    requires
        call_ensures(read_planner_selection, (item,), selection),
    ensures
        selection is Ok <==> text_field(item@, "source_issue_id"@) is Some && text_field(
            item@,
            "title"@,
        ) is Some && text_field(item@, "branch"@) is Some && (field(item@, "selection_summary"@)
            is None || text_field(item@, "selection_summary"@) is Some),
        selection matches Ok(selected) ==> {
            &&& text_field(item@, "source_issue_id"@) == Some(selected.source_issue_id@)
            &&& text_field(item@, "title"@) == Some(selected.title@)
            &&& text_field(item@, "branch"@) == Some(selected.branch@)
            &&& text_field(item@, "selection_summary"@) matches Some(summary)
                ==> selected.selection_summary@ == summary
            &&& field(item@, "selection_summary"@) is None ==> selected.selection_summary@.len()
                == 0
        },
        text_field(item@, "source_issue_id"@) is None ==> (selection matches Err(message)
            && contains_text(message@, "source_issue_id"@)),
        text_field(item@, "source_issue_id"@) is Some && text_field(item@, "title"@) is None ==> (
        selection matches Err(message) && contains_text(message@, "title"@)),
        text_field(item@, "source_issue_id"@) is Some && text_field(item@, "title"@) is Some
            && text_field(item@, "branch"@) is None ==> (selection matches Err(message)
            && contains_text(message@, "branch"@)),
        text_field(item@, "source_issue_id"@) is Some && text_field(item@, "title"@) is Some
            && text_field(item@, "branch"@) is Some && selection is Err ==> contains_text(
            selection->Err_0@,
            "selection_summary"@,
        ),
{
    let begin = "planner selection is missing `"@;
    let end = "` string"@;
    crate::command_laws::lemma_middle(begin, "source_issue_id"@, end);
    crate::command_laws::lemma_middle(begin, "title"@, end);
    crate::command_laws::lemma_middle(begin, "branch"@, end);
    crate::command_laws::lemma_middle(begin, "selection_summary"@, end);
}

/// A copied issue is the issue in every respect.
pub proof fn law_copied_issue(issue: &SourceIssueSnapshot, copy: SourceIssueSnapshot)
    requires
        call_ensures(copy_issue, (issue,), copy),
    ensures
        copy.source_id@ == issue.source_id@,
        copy.title@ == issue.title@,
        copy.readiness@ == issue.readiness@,
        copy.lifecycle_status@ == issue.lifecycle_status@,
        copy.parent_issue == issue.parent_issue,
        copy.issue_dependencies@ == issue.issue_dependencies@,
        copy.source_order == issue.source_order,
        copy.raw_text@ == issue.raw_text@,
{
}

/// A selection that is taken is within what the Project runs in parallel, in a Project with an
/// Issue Source; each of its issues is one of the eligible ones, under its own identifier, and
/// they come in the order of the planner. One that is refused for an issue names an issue that
/// is not eligible.
pub proof fn law_taken_selection_is_sound(
    parsed: &ParsedPlanningOutput,
    eligible: &Vec<SourceIssueSnapshot>,
    max_parallel_tasks: i64,
    has_enabled_issue_source: bool,
    decision: Result<Vec<PlannedClaim>, PlanningRejection>,
    selections: Result<Vec<PlannerSelection>, String>,
    i: int,
)
    requires
        call_ensures(
            validate_planner_selection,
            (parsed, eligible, max_parallel_tasks, has_enabled_issue_source),
            decision,
        ),
        call_ensures(extract_planner_selections, (parsed,), selections),
        max_parallel_tasks <= usize::MAX,
    ensures
        selections is Err <==> (decision matches Err(PlanningRejection::Unparseable(_))),
        decision matches Ok(claims) ==> {
            &&& has_enabled_issue_source
            &&& claims@.len() <= 1 || claims@.len() <= max_parallel_tasks
            &&& selections is Ok && claims@.len() == selections->Ok_0@.len()
            &&& 0 <= i < claims@.len() ==> {
                &&& claims@[i].selection.source_issue_id@
                    == selections->Ok_0@[i].source_issue_id@
                &&& claims@[i].selection.branch@ == selections->Ok_0@[i].branch@
                &&& claims@[i].selection.title@ == selections->Ok_0@[i].title@
                &&& claims@[i].selection.selection_summary@
                    == selections->Ok_0@[i].selection_summary@
                &&& claims@[i].eligible_issue.source_id@
                    == claims@[i].selection.source_issue_id@
            }
        },
        decision matches Err(PlanningRejection::IneligibleSelection { source_id }) ==> forall|k: int|
            0 <= k < eligible@.len() ==> (#[trigger] eligible@[k]).source_id@ != source_id@,
{
    if let Ok(claims) = decision {
        let models = crate::planning_phase::selection_views(selections->Ok_0@);
        assert(crate::planning_phase::selections_of(*parsed) == Ok::<_, Seq<char>>(models));
        if 0 <= i < claims@.len() {
            let claim = claims@[i];
            assert(crate::planning_phase::claim_pairs(claim, models[i], eligible@));
            assert(models[i] == selections->Ok_0@[i]@);
            crate::planning_laws::law_last_with_id(eligible@, models[i].source_issue_id);
        }
    }
    if let Err(PlanningRejection::IneligibleSelection { source_id }) = decision {
        crate::planning_laws::law_last_with_id(eligible@, source_id@);
    }
}

} // verus!
