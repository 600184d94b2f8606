//! The seams of a Plan Run, and the outputs of its phases.

use vstd::prelude::*;

use crate::json::{Json, JsonDocument};
#[allow(unused_imports)]
use crate::json::{
    array_field, field, field_models, item_models, json_text, lemma_field_models, parsed_json,
    text_field, JsonModel,
};
use crate::text::{chars_of, concat, find_chars, string_of, trimmed};
#[allow(unused_imports)]
use crate::text::{find, lemma_find_from, matches_at, opt_view, trim};

verus! {

/// The commit that a Plan Run starts from.
#[derive(Clone, Debug, Eq, PartialEq)]
pub struct RefreshedBaseline {
    pub commit_sha: String,
}

/// A failed seam of a Plan Run.
#[derive(Clone, Debug, Eq, PartialEq)]
pub enum PlanRunPhaseError {
    Refresh(String),
    Planning(String),
    Implementation(String),
    Review(String),
    Merge(String),
    WorktreeProvision(String),
    LifecycleWrite(String),
    IntegrationPush(String),
    /// The remote rejected the push because the branch has diverged.
    NonFastForward { stderr: String },
    Cleanup(String),
}

impl PlanRunPhaseError {
    /// The text of the error.
    pub open spec fn text(&self) -> Seq<char> {
        match self {
            PlanRunPhaseError::Refresh(detail) => "integration branch refresh failed: "@ + detail@,
            PlanRunPhaseError::Planning(detail) => "planning phase execution failed: "@ + detail@,
            PlanRunPhaseError::Implementation(detail) =>
                "implementation phase execution failed: "@ + detail@,
            PlanRunPhaseError::Review(detail) => "review phase execution failed: "@ + detail@,
            PlanRunPhaseError::Merge(detail) => "merge phase execution failed: "@ + detail@,
            PlanRunPhaseError::WorktreeProvision(detail) =>
                "assignment worktree provisioning failed: "@ + detail@,
            PlanRunPhaseError::LifecycleWrite(detail) =>
                "issue lifecycle write-back failed: "@ + detail@,
            PlanRunPhaseError::IntegrationPush(detail) =>
                "integration branch push failed: "@ + detail@,
            PlanRunPhaseError::NonFastForward { stderr } =>
                "integration branch push rejected as non-fast-forward: "@ + stderr@,
            PlanRunPhaseError::Cleanup(detail) =>
                "assignment worktree cleanup failed: "@ + detail@,
        }
    }

    /// The text of the error.
    pub fn message(&self) -> (text: String)
        ensures
            text@ == self.text(),
    {
        match self {
            PlanRunPhaseError::Refresh(detail) => concat(
                "integration branch refresh failed: ",
                detail.as_str(),
            ),
            PlanRunPhaseError::Planning(detail) => concat(
                "planning phase execution failed: ",
                detail.as_str(),
            ),
            PlanRunPhaseError::Implementation(detail) => concat(
                "implementation phase execution failed: ",
                detail.as_str(),
            ),
            PlanRunPhaseError::Review(detail) => concat(
                "review phase execution failed: ",
                detail.as_str(),
            ),
            PlanRunPhaseError::Merge(detail) => concat(
                "merge phase execution failed: ",
                detail.as_str(),
            ),
            PlanRunPhaseError::WorktreeProvision(detail) => concat(
                "assignment worktree provisioning failed: ",
                detail.as_str(),
            ),
            PlanRunPhaseError::LifecycleWrite(detail) => concat(
                "issue lifecycle write-back failed: ",
                detail.as_str(),
            ),
            PlanRunPhaseError::IntegrationPush(detail) => concat(
                "integration branch push failed: ",
                detail.as_str(),
            ),
            PlanRunPhaseError::NonFastForward { stderr } => concat(
                "integration branch push rejected as non-fast-forward: ",
                stderr.as_str(),
            ),
            PlanRunPhaseError::Cleanup(detail) => concat(
                "assignment worktree cleanup failed: ",
                detail.as_str(),
            ),
        }
    }
}

/// The coarse status of a Source Issue that is written back to its Issue
/// Source.
#[derive(Clone, Copy, Debug, Eq, PartialEq, Structural)]
pub enum LifecycleStatus {
    Ready,
    Claimed,
    Running,
    Blocked,
    Completed,
}

impl LifecycleStatus {
    /// The written form of the status.
    pub open spec fn wire(self) -> Seq<char> {
        match self {
            LifecycleStatus::Ready => "ready"@,
            LifecycleStatus::Claimed => "claimed"@,
            LifecycleStatus::Running => "running"@,
            LifecycleStatus::Blocked => "blocked"@,
            LifecycleStatus::Completed => "completed"@,
        }
    }

    /// The written form of the status.
    pub fn as_str(self) -> (text: &'static str)
        ensures
            text@ == self.wire(),
    {
        match self {
            LifecycleStatus::Ready => "ready",
            LifecycleStatus::Claimed => "claimed",
            LifecycleStatus::Running => "running",
            LifecycleStatus::Blocked => "blocked",
            LifecycleStatus::Completed => "completed",
        }
    }
}

/// Refreshes the Integration Branch and reports the baseline commit.
pub trait IntegrationBranchRefresher {
    fn refresh(&self, project_path: &str, integration_branch: &str) -> (result: Result<
        RefreshedBaseline,
        PlanRunPhaseError,
    >);
}

/// Executes the planning prompt and returns what the planner printed.
pub trait PlanningPhaseRunner {
    fn run(&mut self, prompt: &str) -> (result: Result<String, PlanRunPhaseError>);
}

/// A refresher with a fixed baseline.
pub struct StaticIntegrationBranchRefresher {
    pub baseline: RefreshedBaseline,
}

impl StaticIntegrationBranchRefresher {
    pub fn new(baseline: RefreshedBaseline) -> (refresher: StaticIntegrationBranchRefresher)
        ensures
            refresher.baseline == baseline,
    {
        StaticIntegrationBranchRefresher { baseline }
    }
}

impl IntegrationBranchRefresher for StaticIntegrationBranchRefresher {
    fn refresh(&self, project_path: &str, integration_branch: &str) -> (result: Result<
        RefreshedBaseline,
        PlanRunPhaseError,
    >)
        ensures
            result == Ok::<RefreshedBaseline, PlanRunPhaseError>(self.baseline),
    {
        Ok(RefreshedBaseline { commit_sha: self.baseline.commit_sha.clone() })
    }
}

/// A planner that prints a fixed text and remembers its last prompt.
pub struct FakePlanningPhaseRunner {
    pub stdout: String,
    pub prompt: Option<String>,
}

impl FakePlanningPhaseRunner {
    pub fn with_stdout(stdout: String) -> (runner: FakePlanningPhaseRunner)
        ensures
            runner.stdout == stdout,
            runner.prompt is None,
    {
        FakePlanningPhaseRunner { stdout, prompt: None }
    }

    /// The prompt of the last run.
    pub fn last_prompt(&self) -> (prompt: Option<String>)
        ensures
            prompt == self.prompt,
    {
        crate::text::clone_option(&self.prompt)
    }
}

impl PlanningPhaseRunner for FakePlanningPhaseRunner {
    fn run(&mut self, prompt: &str) -> (result: Result<String, PlanRunPhaseError>)
        ensures
            result == Ok::<String, PlanRunPhaseError>(old(self).stdout),
            final(self).stdout == old(self).stdout,
            opt_view(final(self).prompt) == Some(prompt@),
    {
        self.prompt = Some(prompt.to_owned());
        Ok(self.stdout.clone())
    }
}

/// A refresher for a deployment without Git.
pub struct UnimplementedIntegrationBranchRefresher;

impl IntegrationBranchRefresher for UnimplementedIntegrationBranchRefresher {
    fn refresh(&self, project_path: &str, integration_branch: &str) -> (result: Result<
        RefreshedBaseline,
        PlanRunPhaseError,
    >)
        ensures
            result matches Err(PlanRunPhaseError::Refresh(detail)) && detail@
                == "real Integration Branch refresh not implemented yet"@,
    {
        Err(
            PlanRunPhaseError::Refresh(
                "real Integration Branch refresh not implemented yet".to_owned(),
            ),
        )
    }
}

/// A planner for a deployment without an agent.
pub struct UnimplementedPlanningPhaseRunner;

impl PlanningPhaseRunner for UnimplementedPlanningPhaseRunner {
    fn run(&mut self, prompt: &str) -> (result: Result<String, PlanRunPhaseError>)
        ensures
            result matches Err(PlanRunPhaseError::Planning(detail)) && detail@
                == "real Codex planning runner not implemented yet"@,
    {
        Err(PlanRunPhaseError::Planning("real Codex planning runner not implemented yet".to_owned()))
    }
}

// --- Phase outputs ---

/// What stands in `stdout` between the first `<tag>` and the first `</tag>`,
/// without the white space round it, or what is wrong with the tags.
pub open spec fn tagged_body(stdout: Seq<char>, label: Seq<char>, tag: Seq<char>) -> Result<
    Seq<char>,
    Seq<char>,
> {
    let opening = "<"@ + tag + ">"@;
    let closing = "</"@ + tag + ">"@;
    match find(stdout, opening) {
        None => Err(label + " output missing "@ + opening + " opening tag"@),
        Some(from) => match find(stdout, closing) {
            None => Err(label + " output missing "@ + closing + " closing tag"@),
            Some(to) => if to < from + opening.len() {
                Err(label + " output has malformed "@ + opening + " tags"@)
            } else {
                Ok(trim(stdout.subrange((from + opening.len()) as int, to)))
            },
        },
    }
}

/// The tagged body in what an agent printed.
pub fn extract_tagged_body(stdout: &str, label: &str, tag: &str) -> (body: Result<String, String>)
    ensures
        match body {
            Ok(body) => tagged_body(stdout@, label@, tag@) == Ok::<Seq<char>, Seq<char>>(body@),
            Err(message) => tagged_body(stdout@, label@, tag@) == Err::<Seq<char>, Seq<char>>(
                message@,
            ),
        },
{
    let mut opening = concat("<", tag);
    opening.append(">");
    let mut closing = concat("</", tag);
    closing.append(">");
    let chars = chars_of(stdout);
    let opening_chars = chars_of(opening.as_str());
    let closing_chars = chars_of(closing.as_str());
    let from = match find_chars(&chars, &opening_chars, 0) {
        None => {
            let mut message = concat(label, " output missing ");
            message.append(opening.as_str());
            message.append(" opening tag");
            return Err(message);
        },
        Some(from) => from,
    };
    let to = match find_chars(&chars, &closing_chars, 0) {
        None => {
            let mut message = concat(label, " output missing ");
            message.append(closing.as_str());
            message.append(" closing tag");
            return Err(message);
        },
        Some(to) => to,
    };
    proof {
        lemma_find_from(stdout@, opening@, 0);
    }
    let start: usize = from + opening_chars.len();
    if to < start {
        let mut message = concat(label, " output has malformed ");
        message.append(opening.as_str());
        message.append(" tags");
        return Err(message);
    }
    let inner = string_of(&chars, start, to);
    Ok(trimmed(inner.as_str()))
}

/// The JSON document between the tags, or what is wrong with the output.
pub open spec fn tagged_json(stdout: Seq<char>, label: Seq<char>, tag: Seq<char>) -> Result<
    (Seq<char>, JsonModel),
    Seq<char>,
> {
    match tagged_body(stdout, label, tag) {
        Err(message) => Err(message),
        Ok(body) => match parsed_json(body) {
            Err(message) => Err(label + " output is not valid JSON: "@ + message),
            Ok(value) => Ok((body, value)),
        },
    }
}

/// The JSON document between the tags in what an agent printed.
pub fn parse_tagged_json(stdout: &str, label: &str, tag: &str) -> (document: Result<
    JsonDocument,
    String,
>)
    ensures
        match document {
            Ok(document) => document.well_formed() && tagged_json(stdout@, label@, tag@) == Ok::<
                (Seq<char>, JsonModel),
                Seq<char>,
            >((document.text@, document.value@)),
            Err(message) => tagged_json(stdout@, label@, tag@) == Err::<
                (Seq<char>, JsonModel),
                Seq<char>,
            >(message@),
        },
{
    match extract_tagged_body(stdout, label, tag) {
        Err(message) => Err(message),
        Ok(body) => match JsonDocument::parse(body.as_str()) {
            Ok(document) => Ok(document),
            Err(error) => {
                let mut message = concat(label, " output is not valid JSON: ");
                message.append(error.as_str());
                Err(message)
            },
        },
    }
}

/// A planning output whose `issues` are an array.
#[derive(Clone, Debug, Eq, PartialEq)]
pub struct ParsedPlanningOutput {
    pub is_empty: bool,
    pub body: JsonDocument,
}

impl ParsedPlanningOutput {
    /// The body has an `issues` array, which is empty exactly when the output
    /// says so.
    pub open spec fn well_formed(&self) -> bool {
        match array_field(self.body.value@, "issues"@) {
            Some(issues) => self.is_empty == (issues.len() == 0),
            None => false,
        }
    }
}

/// What a planning document says about its issues.
pub fn planning_from_document(document: JsonDocument) -> (parsed: Result<
    ParsedPlanningOutput,
    String,
>)
    ensures
        match parsed {
            Ok(parsed) => parsed.body == document && parsed.well_formed(),
            Err(message) => array_field(document.value@, "issues"@) is None && message@
                == "planning output is missing `issues` array"@,
        },
{
    let is_empty = match document.value.array_at("issues") {
        None => {
            return Err("planning output is missing `issues` array".to_owned());
        },
        Some(issues) => {
            proof {
                crate::json::lemma_item_models(issues@);
            }
            issues.len() == 0
        },
    };
    Ok(ParsedPlanningOutput { is_empty, body: document })
}

/// What `stdout` holds as a planning output, or what is wrong with it.
pub open spec fn planning_output(stdout: Seq<char>) -> Result<(Seq<char>, JsonModel), Seq<char>> {
    match tagged_json(stdout, "planning"@, "plan"@) {
        Err(message) => Err(message),
        Ok(document) => if array_field(document.1, "issues"@) is None {
            Err("planning output is missing `issues` array"@)
        } else {
            Ok(document)
        },
    }
}

/// The planner's selection in what the planner printed: the JSON document
/// between `<plan>` and `</plan>`.
pub fn parse_planning_output(stdout: &str) -> (parsed: Result<ParsedPlanningOutput, String>)
    ensures
        match parsed {
            Ok(parsed) => {
                &&& parsed.well_formed()
                &&& parsed.body.well_formed()
                &&& planning_output(stdout@) == Ok::<(Seq<char>, JsonModel), Seq<char>>(
                    (parsed.body.text@, parsed.body.value@),
                )
            },
            Err(message) => planning_output(stdout@) == Err::<(Seq<char>, JsonModel), Seq<char>>(
                message@,
            ),
        },
{
    match parse_tagged_json(stdout, "planning", "plan") {
        Err(message) => Err(message),
        Ok(document) => planning_from_document(document),
    }
}

/// A phase output with its `outcome` text.
#[derive(Clone, Debug, Eq, PartialEq)]
pub struct ParsedImplementationOutput {
    pub outcome: String,
    pub body: JsonDocument,
}

#[derive(Clone, Debug, Eq, PartialEq)]
pub struct ParsedReviewOutput {
    pub outcome: String,
    pub body: JsonDocument,
}

#[derive(Clone, Debug, Eq, PartialEq)]
pub struct ParsedMergeOutput {
    pub outcome: String,
    pub body: JsonDocument,
}

/// What `stdout` holds as the output of a phase with an `outcome` text, or what
/// is wrong with it.
pub open spec fn outcome_output(stdout: Seq<char>, label: Seq<char>, tag: Seq<char>) -> Result<
    (Seq<char>, Seq<char>, JsonModel),
    Seq<char>,
> {
    match tagged_json(stdout, label, tag) {
        Err(message) => Err(message),
        Ok(document) => match text_field(document.1, "outcome"@) {
            None => Err(label + " output is missing `outcome` string"@),
            Some(outcome) => Ok((outcome, document.0, document.1)),
        },
    }
}

/// The document between the tags, and the `outcome` text in it.
pub fn parse_outcome_output(stdout: &str, label: &str, tag: &str) -> (parsed: Result<
    (String, JsonDocument),
    String,
>)
    ensures
        match parsed {
            Ok(parsed) => parsed.1.well_formed() && outcome_output(stdout@, label@, tag@) == Ok::<
                (Seq<char>, Seq<char>, JsonModel),
                Seq<char>,
            >((parsed.0@, parsed.1.text@, parsed.1.value@)),
            Err(message) => outcome_output(stdout@, label@, tag@) == Err::<
                (Seq<char>, Seq<char>, JsonModel),
                Seq<char>,
            >(message@),
        },
{
    match parse_tagged_json(stdout, label, tag) {
        Err(message) => Err(message),
        Ok(document) => {
            let outcome = match document.value.text_at("outcome") {
                None => {
                    return Err(concat(label, " output is missing `outcome` string"));
                },
                Some(outcome) => outcome.clone(),
            };
            Ok((outcome, document))
        },
    }
}

/// The implementation output between `<impl>` and `</impl>`.
pub fn parse_implementation_output(stdout: &str) -> (parsed: Result<
    ParsedImplementationOutput,
    String,
>)
    ensures
        match parsed {
            Ok(parsed) => parsed.body.well_formed() && outcome_output(
                stdout@,
                "implementation"@,
                "impl"@,
            ) == Ok::<(Seq<char>, Seq<char>, JsonModel), Seq<char>>(
                (parsed.outcome@, parsed.body.text@, parsed.body.value@),
            ),
            Err(message) => outcome_output(stdout@, "implementation"@, "impl"@) == Err::<
                (Seq<char>, Seq<char>, JsonModel),
                Seq<char>,
            >(message@),
        },
{
    match parse_outcome_output(stdout, "implementation", "impl") {
        Err(message) => Err(message),
        Ok((outcome, body)) => Ok(ParsedImplementationOutput { outcome, body }),
    }
}

/// The review output between `<review>` and `</review>`.
pub fn parse_review_output(stdout: &str) -> (parsed: Result<ParsedReviewOutput, String>)
    ensures
        match parsed {
            Ok(parsed) => parsed.body.well_formed() && outcome_output(
                stdout@,
                "review"@,
                "review"@,
            ) == Ok::<(Seq<char>, Seq<char>, JsonModel), Seq<char>>(
                (parsed.outcome@, parsed.body.text@, parsed.body.value@),
            ),
            Err(message) => outcome_output(stdout@, "review"@, "review"@) == Err::<
                (Seq<char>, Seq<char>, JsonModel),
                Seq<char>,
            >(message@),
        },
{
    match parse_outcome_output(stdout, "review", "review") {
        Err(message) => Err(message),
        Ok((outcome, body)) => Ok(ParsedReviewOutput { outcome, body }),
    }
}

/// The merge output between `<merge>` and `</merge>`.
pub fn parse_merge_output(stdout: &str) -> (parsed: Result<ParsedMergeOutput, String>)
    ensures
        match parsed {
            Ok(parsed) => parsed.body.well_formed() && outcome_output(stdout@, "merge"@, "merge"@)
                == Ok::<(Seq<char>, Seq<char>, JsonModel), Seq<char>>(
                (parsed.outcome@, parsed.body.text@, parsed.body.value@),
            ),
            Err(message) => outcome_output(stdout@, "merge"@, "merge"@) == Err::<
                (Seq<char>, Seq<char>, JsonModel),
                Seq<char>,
            >(message@),
        },
{
    match parse_outcome_output(stdout, "merge", "merge") {
        Err(message) => Err(message),
        Ok((outcome, body)) => Ok(ParsedMergeOutput { outcome, body }),
    }
}

// --- What is stored of a phase that failed ---

/// The outcome of a phase that failed.
pub const FAILED_OUTCOME: &'static str = "failed";

/// What is stored of a phase.
#[derive(Debug, Eq, PartialEq)]
pub struct PhaseRecord {
    pub phase: &'static str,
    pub outcome: String,
    pub body: JsonDocument,
}

/// The body of a phase that failed: an object that holds the error.
pub open spec fn failure_model(error: Seq<char>) -> JsonModel {
    JsonModel::Object(seq![("error"@, JsonModel::Text(error))])
}

/// The body of a phase that failed.
pub fn failure_body(error: &str) -> (body: JsonDocument)
    ensures
        body.value@ == failure_model(error@),
        body.text@ == json_text(failure_model(error@)),
{
    let mut fields: Vec<(String, Json)> = Vec::new();
    fields.push(("error".to_owned(), Json::Text(error.to_owned())));
    let value = Json::Object(fields);
    proof {
        lemma_field_models(fields@);
        assert(field_models(fields@) =~= seq![("error"@, JsonModel::Text(error@))]);
    }
    JsonDocument::of(value)
}

impl PhaseRecord {
    /// What is stored of a phase that failed with the error.
    pub open spec fn is_failure(&self, phase: Seq<char>, error: Seq<char>) -> bool {
        &&& self.phase@ == phase
        &&& self.outcome@ == FAILED_OUTCOME@
        &&& self.body.value@ == failure_model(error)
        &&& self.body.text@ == json_text(failure_model(error))
    }

    /// What is stored of a phase that failed with the error.
    pub fn failure(phase: &'static str, error: &str) -> (record: PhaseRecord)
        ensures
            record.is_failure(phase@, error@),
    {
        PhaseRecord { phase, outcome: FAILED_OUTCOME.to_owned(), body: failure_body(error) }
    }
}

} // verus!
