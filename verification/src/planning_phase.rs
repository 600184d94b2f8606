//! The Planning Phase: its prompt, and the validation of what the planner
//! selected.

use vstd::prelude::*;

use crate::contracts::{ProjectExecutionConfigResponse, ProjectResponse, SourceIssueSnapshot};
use crate::json::Json;
#[allow(unused_imports)]
use crate::json::{array_field, field, item_models, lemma_item_models, text_field, JsonModel};
use crate::numerals::{decimal_i64, decimal_u64};
#[allow(unused_imports)]
use crate::numerals::{decimal, decimal_int};
use crate::plan_run::{ParsedPlanningOutput, RefreshedBaseline};
use crate::problem::CoordinatorError;
use crate::prompt::fill;
#[allow(unused_imports)]
use crate::prompt::filled;
use crate::text::{clone_option, clone_strings, concat, same_text};
#[allow(unused_imports)]
use crate::text::views;
use crate::text_parts::{join_strings, split_lines};
#[allow(unused_imports)]
use crate::text_parts::{join, lines};

verus! {

/// One Source Issue that the planner selected.
#[derive(Clone, Debug, Eq, PartialEq)]
pub struct PlannerSelection {
    pub source_issue_id: String,
    pub title: String,
    pub branch: String,
    pub selection_summary: String,
}

/// What a [`PlannerSelection`] holds.
pub struct SelectionModel {
    pub source_issue_id: Seq<char>,
    pub title: Seq<char>,
    pub branch: Seq<char>,
    pub selection_summary: Seq<char>,
}

impl View for PlannerSelection {
    type V = SelectionModel;

    open spec fn view(&self) -> SelectionModel {
        SelectionModel {
            source_issue_id: self.source_issue_id@,
            title: self.title@,
            branch: self.branch@,
            selection_summary: self.selection_summary@,
        }
    }
}

/// The message for a selection without the text field `name`.
pub open spec fn missing_field_message(name: Seq<char>) -> Seq<char> {
    "planner selection is missing `"@ + name + "` string"@
}

/// One entry of the planner's `issues`: three texts are required, and the
/// summary may be left out.
pub open spec fn planner_selection(item: JsonModel) -> Result<SelectionModel, Seq<char>> {
    match (
        text_field(item, "source_issue_id"@),
        text_field(item, "title"@),
        text_field(item, "branch"@),
        field(item, "selection_summary"@),
    ) {
        (None, _, _, _) => Err(missing_field_message("source_issue_id"@)),
        (Some(_), None, _, _) => Err(missing_field_message("title"@)),
        (Some(_), Some(_), None, _) => Err(missing_field_message("branch"@)),
        (Some(source_issue_id), Some(title), Some(branch), None) => Ok(
            SelectionModel { source_issue_id, title, branch, selection_summary: seq![] },
        ),
        (Some(source_issue_id), Some(title), Some(branch), Some(JsonModel::Text(summary))) => Ok(
            SelectionModel { source_issue_id, title, branch, selection_summary: summary },
        ),
        (Some(_), Some(_), Some(_), Some(_)) => Err(missing_field_message("selection_summary"@)),
    }
}

/// The entries of the planner's `issues`, or what is wrong with the first entry
/// that is not a selection.
pub open spec fn planner_selections(items: Seq<JsonModel>) -> Result<
    Seq<SelectionModel>,
    Seq<char>,
>
    decreases items.len(),
{
    if items.len() == 0 {
        Ok(seq![])
    } else {
        match planner_selections(items.drop_last()) {
            Err(message) => Err(message),
            Ok(before) => match planner_selection(items.last()) {
                Err(message) => Err(message),
                Ok(selection) => Ok(before.push(selection)),
            },
        }
    }
}

proof fn lemma_selection_error_stays(items: Seq<JsonModel>, n: int)
    requires
        0 <= n <= items.len(),
        planner_selections(items.take(n)) is Err,
    ensures
        planner_selections(items) == planner_selections(items.take(n)),
    decreases items.len() - n,
{
    if n == items.len() {
        assert(items.take(n) =~= items);
    } else {
        assert(items.take(n + 1).drop_last() =~= items.take(n));
        lemma_selection_error_stays(items, n + 1);
    }
}

fn missing_field(name: &str) -> (message: String)
    ensures
        message@ == missing_field_message(name@),
{
    let mut message = concat("planner selection is missing `", name);
    message.append("` string");
    message
}

/// One entry of the planner's `issues` as a selection.
pub fn read_planner_selection(item: &Json) -> (selection: Result<PlannerSelection, String>)
    ensures
        match selection {
            Ok(selection) => planner_selection(item@) == Ok::<SelectionModel, Seq<char>>(
                selection@,
            ),
            Err(message) => planner_selection(item@) == Err::<SelectionModel, Seq<char>>(message@),
        },
{
    let source_issue_id = match item.text_at("source_issue_id") {
        None => {
            return Err(missing_field("source_issue_id"));
        },
        Some(text) => text.clone(),
    };
    let title = match item.text_at("title") {
        None => {
            return Err(missing_field("title"));
        },
        Some(text) => text.clone(),
    };
    let branch = match item.text_at("branch") {
        None => {
            return Err(missing_field("branch"));
        },
        Some(text) => text.clone(),
    };
    let selection_summary = match item.get("selection_summary") {
        None => String::new(),
        Some(value) => match value.as_text() {
            None => {
                return Err(missing_field("selection_summary"));
            },
            Some(text) => text.clone(),
        },
    };
    Ok(PlannerSelection { source_issue_id, title, branch, selection_summary })
}

/// The selections of a planning output.
pub open spec fn selections_of(parsed: ParsedPlanningOutput) -> Result<
    Seq<SelectionModel>,
    Seq<char>,
> {
    match array_field(parsed.body.value@, "issues"@) {
        Some(items) => planner_selections(items),
        None => Err("planning output is missing `issues` array"@),
    }
}

/// What a list of selections holds.
pub open spec fn selection_views(selections: Seq<PlannerSelection>) -> Seq<SelectionModel> {
    selections.map_values(|selection: PlannerSelection| selection@)
}

/// The selections of a planning output, in the planner's order.
pub fn extract_planner_selections(parsed: &ParsedPlanningOutput) -> (selections: Result<
    Vec<PlannerSelection>,
    String,
>)
    ensures
        match selections {
            Ok(selections) => selections_of(*parsed) == Ok::<Seq<SelectionModel>, Seq<char>>(
                selection_views(selections@),
            ),
            Err(message) => selections_of(*parsed) == Err::<Seq<SelectionModel>, Seq<char>>(
                message@,
            ),
        },
{
    let items = match parsed.body.value.array_at("issues") {
        None => {
            return Err("planning output is missing `issues` array".to_owned());
        },
        Some(items) => items,
    };
    let ghost models = item_models(items@);
    proof {
        lemma_item_models(items@);
    }
    let mut selections: Vec<PlannerSelection> = Vec::new();
    let mut i: usize = 0;
    assert(models.take(0) =~= Seq::<JsonModel>::empty());
    assert(selection_views(selections@) =~= Seq::<SelectionModel>::empty());
    while i < items.len()
        invariant
            i <= items.len(),
            models == item_models(items@),
            models.len() == items.len(),
            forall|k: int| 0 <= k < items.len() ==> #[trigger] models[k] == items@[k]@,
            array_field(parsed.body.value@, "issues"@) == Some(models),
            planner_selections(models.take(i as int)) == Ok::<Seq<SelectionModel>, Seq<char>>(
                selection_views(selections@),
            ),
        decreases items.len() - i,
    {
        let ghost next = models.take(i + 1);
        proof {
            assert(next.drop_last() =~= models.take(i as int));
            assert(next.last() == models[i as int]);
        }
        match read_planner_selection(&items[i]) {
            Err(message) => {
                proof {
                    lemma_selection_error_stays(models, i + 1);
                }
                return Err(message);
            },
            Ok(selection) => {
                let ghost before = selections@;
                selections.push(selection);
                assert(selection_views(selections@) =~= selection_views(before).push(selection@));
            },
        }
        i += 1;
    }
    assert(models.take(i as int) =~= models);
    Ok(selections)
}

/// A validated planner choice with the eligible Source Issue that it targets.
#[derive(Clone, Debug, Eq, PartialEq)]
pub struct PlannedClaim {
    pub selection: PlannerSelection,
    pub eligible_issue: SourceIssueSnapshot,
}

/// Why the planner's selection was rejected.
#[derive(Clone, Debug, Eq, PartialEq)]
pub enum PlanningRejection {
    /// The planning body is not a list of selections.
    Unparseable(String),
    /// The planner selected more issues than the Project runs in parallel.
    ExceedsMaxParallel { got: usize, cap: usize },
    /// A selection is not in the eligible set.
    IneligibleSelection { source_id: String },
    /// The Project has no enabled Issue Source.
    MissingIssueSource,
}

impl PlanningRejection {
    /// The problem type that the rejection is reported with.
    pub open spec fn problem_type(&self) -> Seq<char> {
        match self {
            PlanningRejection::Unparseable(_) => "urn:agentic-afk:planning-output-unparseable"@,
            PlanningRejection::ExceedsMaxParallel { .. } =>
                "urn:agentic-afk:planning-exceeds-max-parallel"@,
            PlanningRejection::IneligibleSelection { .. } =>
                "urn:agentic-afk:planning-selection-ineligible"@,
            PlanningRejection::MissingIssueSource => "urn:agentic-afk:issue-source-missing"@,
        }
    }

    /// The detail that the rejection is reported with.
    pub open spec fn detail(&self) -> Seq<char> {
        match self {
            PlanningRejection::Unparseable(error) => error@,
            PlanningRejection::ExceedsMaxParallel { got, cap } => "Planning Phase returned "@
                + decimal(*got as nat) + " issues but Project Max Parallel Tasks is "@ + decimal(
                *cap as nat,
            ),
            PlanningRejection::IneligibleSelection { source_id } =>
                "Planning Phase selected Source Issue "@ + source_id@
                + " which is not in the eligible set"@,
            PlanningRejection::MissingIssueSource =>
                "Project has no enabled Issue Source for claim write-back"@,
        }
    }
}

impl From<PlanningRejection> for CoordinatorError {
    fn from(rejection: PlanningRejection) -> (error: CoordinatorError)
        ensures
            error.is(500, rejection.problem_type(), rejection.detail()),
    {
        match rejection {
            PlanningRejection::Unparseable(error) => CoordinatorError::new(
                500,
                "urn:agentic-afk:planning-output-unparseable",
                error,
            ),
            PlanningRejection::ExceedsMaxParallel { got, cap } => {
                let mut detail = concat(
                    "Planning Phase returned ",
                    decimal_u64(got as u64).as_str(),
                );
                detail.append(" issues but Project Max Parallel Tasks is ");
                detail.append(decimal_u64(cap as u64).as_str());
                CoordinatorError::new(
                    500,
                    "urn:agentic-afk:planning-exceeds-max-parallel",
                    detail,
                )
            },
            PlanningRejection::IneligibleSelection { source_id } => {
                let mut detail = concat(
                    "Planning Phase selected Source Issue ",
                    source_id.as_str(),
                );
                detail.append(" which is not in the eligible set");
                CoordinatorError::new(
                    500,
                    "urn:agentic-afk:planning-selection-ineligible",
                    detail,
                )
            },
            PlanningRejection::MissingIssueSource => CoordinatorError::new(
                500,
                "urn:agentic-afk:issue-source-missing",
                "Project has no enabled Issue Source for claim write-back".to_owned(),
            ),
        }
    }
}

impl vstd::std_specs::convert::FromSpecImpl<PlanningRejection> for CoordinatorError {
    open spec fn obeys_from_spec() -> bool {
        false
    }

    open spec fn from_spec(rejection: PlanningRejection) -> CoordinatorError {
        arbitrary()
    }
}

/// How many issues may run in parallel: at least one.
pub open spec fn parallel_cap(max_parallel_tasks: i64) -> usize {
    if max_parallel_tasks < 1 {
        1
    } else {
        max_parallel_tasks as usize
    }
}

/// The position of the last issue with the id `source_id`.
pub open spec fn last_with_id(issues: Seq<SourceIssueSnapshot>, source_id: Seq<char>) -> Option<int>
    decreases issues.len(),
{
    if issues.len() == 0 {
        None
    } else if issues.last().source_id@ == source_id {
        Some(issues.len() - 1)
    } else {
        last_with_id(issues.drop_last(), source_id)
    }
}

/// Two snapshots hold the same issue.
pub open spec fn same_issue(a: SourceIssueSnapshot, b: SourceIssueSnapshot) -> bool {
    &&& a.source_id == b.source_id
    &&& a.title == b.title
    &&& a.readiness == b.readiness
    &&& a.lifecycle_status == b.lifecycle_status
    &&& a.parent_issue == b.parent_issue
    &&& a.issue_dependencies@ == b.issue_dependencies@
    &&& a.source_order == b.source_order
    &&& a.raw_text == b.raw_text
}

/// A copy of a snapshot.
pub fn copy_issue(issue: &SourceIssueSnapshot) -> (copy: SourceIssueSnapshot)
    ensures
        same_issue(copy, *issue),
{
    SourceIssueSnapshot {
        source_id: issue.source_id.clone(),
        title: issue.title.clone(),
        readiness: issue.readiness.clone(),
        lifecycle_status: issue.lifecycle_status.clone(),
        parent_issue: clone_option(&issue.parent_issue),
        issue_dependencies: clone_strings(&issue.issue_dependencies),
        source_order: issue.source_order,
        raw_text: issue.raw_text.clone(),
    }
}

/// The position of the last eligible issue with the id `source_id`.
pub fn find_eligible(eligible: &Vec<SourceIssueSnapshot>, source_id: &str) -> (at: Option<usize>)
    ensures
        match at {
            Some(at) => last_with_id(eligible@, source_id@) == Some(at as int) && at
                < eligible.len() && eligible@[at as int].source_id@ == source_id@,
            None => last_with_id(eligible@, source_id@) is None,
        },
{
    let mut i: usize = eligible.len();
    assert(eligible@.take(i as int) =~= eligible@);
    while i > 0
        invariant
            i <= eligible.len(),
            last_with_id(eligible@, source_id@) == last_with_id(
                eligible@.take(i as int),
                source_id@,
            ),
        decreases i,
    {
        let ghost front = eligible@.take(i as int);
        assert(front.last() == eligible@[i - 1]);
        if same_text(eligible[i - 1].source_id.as_str(), source_id) {
            return Some(i - 1);
        }
        assert(front.drop_last() =~= eligible@.take(i - 1));
        i -= 1;
    }
    None
}

/// Selection `i` is paired with the eligible issue that it targets.
pub open spec fn claim_pairs(
    claim: PlannedClaim,
    selection: SelectionModel,
    eligible: Seq<SourceIssueSnapshot>,
) -> bool {
    &&& claim.selection@ == selection
    &&& match last_with_id(eligible, selection.source_issue_id) {
        Some(at) => same_issue(claim.eligible_issue, eligible[at]),
        None => false,
    }
}

/// The decision on a planning output. A selection that cannot be read, that is
/// too long, that has nowhere to be written back, or that names an issue which
/// is not eligible is rejected, in this order.
pub open spec fn is_planner_decision(
    decision: Result<Vec<PlannedClaim>, PlanningRejection>,
    selections: Result<Seq<SelectionModel>, Seq<char>>,
    eligible: Seq<SourceIssueSnapshot>,
    max_parallel_tasks: i64,
    has_enabled_issue_source: bool,
) -> bool {
    match selections {
        Err(message) => decision matches Err(PlanningRejection::Unparseable(error)) && error@
            == message,
        Ok(selections) => if selections.len() > parallel_cap(max_parallel_tasks) {
            decision matches Err(PlanningRejection::ExceedsMaxParallel { got, cap }) && got
                == selections.len() && cap == parallel_cap(max_parallel_tasks)
        } else if !has_enabled_issue_source {
            decision matches Err(PlanningRejection::MissingIssueSource)
        } else {
            match decision {
                Ok(claims) => {
                    &&& claims.len() == selections.len()
                    &&& forall|i: int|
                        0 <= i < selections.len() ==> claim_pairs(
                            #[trigger] claims@[i],
                            selections[i],
                            eligible,
                        )
                },
                Err(PlanningRejection::IneligibleSelection { source_id }) => exists|i: int|
                    {
                        &&& 0 <= i < selections.len()
                        &&& source_id@ == (#[trigger] selections[i]).source_issue_id
                        &&& last_with_id(eligible, selections[i].source_issue_id) is None
                        &&& forall|k: int|
                            0 <= k < i ==> last_with_id(
                                eligible,
                                (#[trigger] selections[k]).source_issue_id,
                            ) is Some
                    },
                _ => false,
            }
        },
    }
}

/// Pair the planner's selections with their eligible Source Issues, within the
/// Project's Max Parallel Tasks.
pub fn validate_planner_selection(
    parsed: &ParsedPlanningOutput,
    eligible: &Vec<SourceIssueSnapshot>,
    max_parallel_tasks: i64,
    has_enabled_issue_source: bool,
) -> (decision: Result<Vec<PlannedClaim>, PlanningRejection>)
    ensures
        is_planner_decision(
            decision,
            selections_of(*parsed),
            eligible@,
            max_parallel_tasks,
            has_enabled_issue_source,
        ),
{
    let selections: Vec<PlannerSelection> = match extract_planner_selections(parsed) {
        Err(error) => {
            return Err(PlanningRejection::Unparseable(error));
        },
        Ok(selections) => selections,
    };
    let ghost models = selection_views(selections@);
    let cap: usize = if max_parallel_tasks < 1 { 1 } else { max_parallel_tasks as usize };
    if selections.len() > cap {
        return Err(PlanningRejection::ExceedsMaxParallel { got: selections.len(), cap });
    }
    if !has_enabled_issue_source {
        return Err(PlanningRejection::MissingIssueSource);
    }
    let mut claims: Vec<PlannedClaim> = Vec::new();
    let mut i: usize = 0;
    while i < selections.len()
        invariant
            i <= selections.len(),
            selections_of(*parsed) == Ok::<Seq<SelectionModel>, Seq<char>>(models),
            models == selection_views(selections@),
            models.len() <= parallel_cap(max_parallel_tasks),
            has_enabled_issue_source,
            claims.len() == i,
            forall|k: int|
                0 <= k < i ==> claim_pairs(#[trigger] claims@[k], models[k], eligible@),
        decreases selections.len() - i,
    {
        let selection = &selections[i];
        assert(models[i as int] == selection@);
        match find_eligible(eligible, selection.source_issue_id.as_str()) {
            None => {
                proof {
                    assert forall|k: int| 0 <= k < i implies last_with_id(
                        eligible@,
                        (#[trigger] models[k]).source_issue_id,
                    ) is Some by {
                        assert(claim_pairs(claims@[k], models[k], eligible@));
                    }
                }
                return Err(
                    PlanningRejection::IneligibleSelection {
                        source_id: selection.source_issue_id.clone(),
                    },
                );
            },
            Some(at) => {
                let claim = PlannedClaim {
                    selection: PlannerSelection {
                        source_issue_id: selection.source_issue_id.clone(),
                        title: selection.title.clone(),
                        branch: selection.branch.clone(),
                        selection_summary: selection.selection_summary.clone(),
                    },
                    eligible_issue: copy_issue(&eligible[at]),
                };
                claims.push(claim);
            },
        }
        i += 1;
    }
    Ok(claims)
}

// --- The prompt ---

/// A line with `spaces` spaces in front.
pub open spec fn padded(line: Seq<char>, spaces: int) -> Seq<char> {
    Seq::new(spaces as nat, |i: int| ' ') + line
}

/// The lines of `text`, each with `spaces` spaces in front.
pub open spec fn indented(text: Seq<char>, spaces: int) -> Seq<char> {
    join(lines(text).map_values(|line: Seq<char>| padded(line, spaces)), "\n"@)
}

/// Put `spaces` spaces in front of each line of `text`.
pub fn indent_lines(text: &str, spaces: usize) -> (result: String)
    ensures
        result@ == indented(text@, spaces as int),
{
    let parts = split_lines(text);
    let mut pad = String::new();
    let mut n: usize = 0;
    while n < spaces
        invariant
            n <= spaces,
            pad@ == Seq::new(n as nat, |i: int| ' '),
        decreases spaces - n,
    {
        pad.push(' ');
        n += 1;
        assert(pad@ =~= Seq::new(n as nat, |i: int| ' '));
    }
    assert(pad@ =~= Seq::new(spaces as nat, |i: int| ' '));
    let mut padded_parts: Vec<String> = Vec::new();
    let mut i: usize = 0;
    let ghost target = lines(text@).map_values(|line: Seq<char>| padded(line, spaces as int));
    assert(target.len() == parts.len());
    while i < parts.len()
        invariant
            i <= parts.len(),
            pad@ == Seq::new(spaces as nat, |i: int| ' '),
            views(parts@) == lines(text@),
            target == lines(text@).map_values(|line: Seq<char>| padded(line, spaces as int)),
            views(padded_parts@) == target.take(i as int),
        decreases parts.len() - i,
    {
        let part = concat(pad.as_str(), parts[i].as_str());
        let ghost before = padded_parts@;
        padded_parts.push(part);
        proof {
            assert(views(parts@)[i as int] == parts@[i as int]@);
            assert(target[i as int] == part@);
            assert(views(padded_parts@) =~= views(before).push(part@));
            assert(target.take(i + 1) =~= target.take(i as int).push(part@));
        }
        i += 1;
    }
    assert(target.take(i as int) =~= target);
    join_strings(&padded_parts, "\n")
}

/// One eligible issue in the prompt.
pub open spec fn issue_entry(issue: SourceIssueSnapshot) -> Seq<char> {
    "- source_id: "@ + issue.source_id@ + "\n  title: "@ + issue.title@ + "\n  raw:\n"@ + indented(
        issue.raw_text@,
        4,
    )
}

/// The eligible issues in the prompt.
pub open spec fn eligible_entries(eligible: Seq<SourceIssueSnapshot>) -> Seq<char> {
    if eligible.len() == 0 {
        "(no eligible Source Issues)"@
    } else {
        join(eligible.map_values(|issue: SourceIssueSnapshot| issue_entry(issue)), "\n\n"@)
    }
}

/// The eligible issues in the prompt.
pub fn render_eligible_source_issues(eligible: &Vec<SourceIssueSnapshot>) -> (text: String)
    ensures
        text@ == eligible_entries(eligible@),
{
    if eligible.len() == 0 {
        return "(no eligible Source Issues)".to_owned();
    }
    let ghost target = eligible@.map_values(|issue: SourceIssueSnapshot| issue_entry(issue));
    let mut entries: Vec<String> = Vec::new();
    let mut i: usize = 0;
    while i < eligible.len()
        invariant
            i <= eligible.len(),
            target == eligible@.map_values(|issue: SourceIssueSnapshot| issue_entry(issue)),
            views(entries@) == target.take(i as int),
        decreases eligible.len() - i,
    {
        let issue = &eligible[i];
        let mut entry = concat("- source_id: ", issue.source_id.as_str());
        entry.append("\n  title: ");
        entry.append(issue.title.as_str());
        entry.append("\n  raw:\n");
        entry.append(indent_lines(issue.raw_text.as_str(), 4).as_str());
        let ghost before = entries@;
        entries.push(entry);
        proof {
            assert(target[i as int] == entry@);
            assert(views(entries@) =~= views(before).push(entry@));
            assert(target.take(i + 1) =~= target.take(i as int).push(entry@));
        }
        i += 1;
    }
    assert(target.take(i as int) =~= target);
    join_strings(&entries, "\n\n")
}

/// The planning prompt: `template` with its placeholders filled in.
pub fn render_planning_prompt(
    template: &str,
    project_instructions: &str,
    project: &ProjectResponse,
    config: &ProjectExecutionConfigResponse,
    baseline: &RefreshedBaseline,
    eligible: &Vec<SourceIssueSnapshot>,
) -> (prompt: String)
    ensures
        prompt@ == {
            let a = filled(template@, "PROJECT_INSTRUCTIONS"@, project_instructions@);
            let b = filled(a, "PROJECT_NAME"@, project.path@);
            let c = filled(b, "INTEGRATION_BRANCH"@, config.integration_branch@);
            let d = filled(c, "PLAN_RUN_BASELINE"@, baseline.commit_sha@);
            let e = filled(
                d,
                "MAX_PARALLEL_TASKS"@,
                decimal_int(config.max_parallel_tasks as int),
            );
            filled(e, "ELIGIBLE_SOURCE_ISSUES"@, eligible_entries(eligible@))
        },
{
    let a = fill(template, "PROJECT_INSTRUCTIONS", project_instructions);
    let b = fill(a.as_str(), "PROJECT_NAME", project.path.as_str());
    let c = fill(b.as_str(), "INTEGRATION_BRANCH", config.integration_branch.as_str());
    let d = fill(c.as_str(), "PLAN_RUN_BASELINE", baseline.commit_sha.as_str());
    let e = fill(
        d.as_str(),
        "MAX_PARALLEL_TASKS",
        decimal_i64(config.max_parallel_tasks).as_str(),
    );
    fill(
        e.as_str(),
        "ELIGIBLE_SOURCE_ISSUES",
        render_eligible_source_issues(eligible).as_str(),
    )
}

} // verus!
