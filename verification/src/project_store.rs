//! The dashboard's store: the live state of a Project, and the mutations that the
//! operator has started.

use vstd::prelude::*;

use crate::contracts::{
    ProblemDetail, ProjectActivityEntryResponse, ProjectEvent, ProjectId, ProjectSnapshot,
};
use crate::text::same_text;

verus! {

// --- The live state ---

/// What became of an event.
#[derive(Clone, Copy, Debug, Eq, PartialEq, Structural)]
pub enum ApplyOutcome {
    /// The event was the next one, and is part of the state.
    Merged,
    /// The event had been seen, and was ignored.
    Stale,
    /// Events are missing: the state must be fetched again.
    Rehydrate,
}

/// The live state of a Project.
#[derive(Clone, Debug, Eq, PartialEq)]
pub struct ProjectStoreState {
    /// The activity, newest first.
    pub activity: Vec<ProjectActivityEntryResponse>,
    pub last_seen_seq: u64,
    pub needs_rehydrate: bool,
}

/// What an event does, given the last one that was seen. A request to fetch the
/// state again counts whatever its number is.
pub open spec fn event_outcome(last_seen: u64, sequence: u64, event: ProjectEvent) -> ApplyOutcome {
    if event is Resync {
        ApplyOutcome::Rehydrate
    } else if sequence <= last_seen {
        ApplyOutcome::Stale
    } else if sequence > last_seen + 1 {
        ApplyOutcome::Rehydrate
    } else {
        ApplyOutcome::Merged
    }
}

/// The activity with the entry of an event in front, if it has one.
pub open spec fn with_entry(
    activity: Seq<ProjectActivityEntryResponse>,
    event: ProjectEvent,
) -> Seq<ProjectActivityEntryResponse> {
    match event {
        ProjectEvent::Activity(entry) => seq![entry] + activity,
        _ => activity,
    }
}

impl Default for ProjectStoreState {
    fn default() -> (state: ProjectStoreState)
        ensures
            state.activity@ == Seq::<ProjectActivityEntryResponse>::empty(),
            state.last_seen_seq == 0,
            !state.needs_rehydrate,
    {
        ProjectStoreState { activity: Vec::new(), last_seen_seq: 0, needs_rehydrate: false }
    }
}

impl ProjectStoreState {
    pub fn new() -> (state: ProjectStoreState)
        ensures
            state.activity@ == Seq::<ProjectActivityEntryResponse>::empty(),
            state.last_seen_seq == 0,
            !state.needs_rehydrate,
    {
        <ProjectStoreState as Default>::default()
    }

    /// Start over from a snapshot.
    pub fn hydrate(&mut self, snapshot: ProjectSnapshot, sequence: u64)
        ensures
            final(self).activity == snapshot.activity,
            final(self).last_seen_seq == sequence,
            !final(self).needs_rehydrate,
    {
        self.activity = snapshot.activity;
        self.last_seen_seq = sequence;
        self.needs_rehydrate = false;
    }

    /// Apply an event. Only the event that follows the last one becomes part of
    /// the state.
    pub fn apply_event(&mut self, sequence: u64, event: ProjectEvent) -> (outcome: ApplyOutcome)
        ensures
            outcome == event_outcome(old(self).last_seen_seq, sequence, event),
            match outcome {
                ApplyOutcome::Merged => {
                    &&& final(self).activity@ == with_entry(old(self).activity@, event)
                    &&& final(self).last_seen_seq == sequence
                    &&& final(self).needs_rehydrate == old(self).needs_rehydrate
                },
                ApplyOutcome::Stale => *final(self) == *old(self),
                ApplyOutcome::Rehydrate => {
                    &&& final(self).activity == old(self).activity
                    &&& final(self).last_seen_seq == old(self).last_seen_seq
                    &&& final(self).needs_rehydrate
                },
            },
    {
        if let ProjectEvent::Resync = event {
            self.needs_rehydrate = true;
            return ApplyOutcome::Rehydrate;
        }
        if sequence <= self.last_seen_seq {
            return ApplyOutcome::Stale;
        }
        if sequence - self.last_seen_seq > 1 {
            self.needs_rehydrate = true;
            return ApplyOutcome::Rehydrate;
        }
        match event {
            ProjectEvent::Activity(entry) => {
                self.activity.insert(0, entry);
                assert(self.activity@ =~= seq![entry] + old(self).activity@);
            },
            _ => {},
        }
        self.last_seen_seq = sequence;
        ApplyOutcome::Merged
    }
}

/// No event is merged twice: once it is part of the state, it is stale.
pub proof fn law_event_is_merged_once(last_seen: u64, sequence: u64, event: ProjectEvent)
    requires
        event_outcome(last_seen, sequence, event) == ApplyOutcome::Merged,
    ensures
        sequence == last_seen + 1,
        event_outcome(sequence, sequence, event) == ApplyOutcome::Stale,
{
}

/// No event is skipped: where one is missing, the state is fetched again instead
/// of merging a later one.
pub proof fn law_gap_asks_for_snapshot(last_seen: u64, sequence: u64, event: ProjectEvent)
    requires
        sequence > last_seen + 1,
    ensures
        event_outcome(last_seen, sequence, event) == ApplyOutcome::Rehydrate,
{
}

// --- The mutations ---

/// The identifier of a Source Issue.
#[derive(Clone, Debug, Eq, Hash, PartialEq)]
pub struct SourceIssueId(pub String);

/// The identifier of an Issue Assignment.
#[derive(Clone, Debug, Eq, Hash, PartialEq)]
pub struct IssueAssignmentId(pub String);

/// What the operator asks for. Two requests that differ in anything are kept
/// apart.
#[derive(Clone, Debug, Eq, Hash, PartialEq)]
pub enum MutationKey {
    TrustProject(ProjectId),
    StartAssignment(ProjectId, SourceIssueId),
    AbandonAssignment(ProjectId, IssueAssignmentId),
    RecoverAssignment(ProjectId, IssueAssignmentId),
    RefreshProposalState(ProjectId, IssueAssignmentId),
    SyncIssueSource(ProjectId),
    EnableIssueSource(ProjectId, String, String),
    SetExecutionConfig(ProjectId),
    StartPlanRun(ProjectId),
    RetryPushAssignment(ProjectId, IssueAssignmentId),
    AbandonStagedAssignment(ProjectId, IssueAssignmentId),
    ReEnableSourceIssue(ProjectId, SourceIssueId),
    MarkPrd(ProjectId, SourceIssueId),
    UnmarkPrd(ProjectId, SourceIssueId),
    ArmAutoReplan(ProjectId),
    DisarmAutoReplan(ProjectId),
    ResumeAutoReplan(ProjectId),
}

/// The kinds of requests.
#[derive(Clone, Copy, Debug, Eq, PartialEq, Structural)]
pub enum MutationVerb {
    TrustProject,
    StartAssignment,
    AbandonAssignment,
    RecoverAssignment,
    RefreshProposalState,
    SyncIssueSource,
    EnableIssueSource,
    SetExecutionConfig,
    StartPlanRun,
    RetryPushAssignment,
    AbandonStagedAssignment,
    ReEnableSourceIssue,
    MarkPrd,
    UnmarkPrd,
    ArmAutoReplan,
    DisarmAutoReplan,
    ResumeAutoReplan,
}

/// A request: its kind, its Project, and the texts that tell it from others of
/// its kind.
pub struct KeyModel {
    pub verb: MutationVerb,
    pub project: Seq<char>,
    pub first: Seq<char>,
    pub second: Seq<char>,
}

impl View for MutationKey {
    type V = KeyModel;

    open spec fn view(&self) -> KeyModel {
        let none = Seq::<char>::empty();
        let (verb, project, first, second) = match self {
            MutationKey::TrustProject(id) => (MutationVerb::TrustProject, id.0@, none, none),
            MutationKey::StartAssignment(id, issue) => (
                MutationVerb::StartAssignment,
                id.0@,
                issue.0@,
                none,
            ),
            MutationKey::AbandonAssignment(id, assignment) => (
                MutationVerb::AbandonAssignment,
                id.0@,
                assignment.0@,
                none,
            ),
            MutationKey::RecoverAssignment(id, assignment) => (
                MutationVerb::RecoverAssignment,
                id.0@,
                assignment.0@,
                none,
            ),
            MutationKey::RefreshProposalState(id, assignment) => (
                MutationVerb::RefreshProposalState,
                id.0@,
                assignment.0@,
                none,
            ),
            MutationKey::SyncIssueSource(id) => (MutationVerb::SyncIssueSource, id.0@, none, none),
            MutationKey::EnableIssueSource(id, kind, locator) => (
                MutationVerb::EnableIssueSource,
                id.0@,
                kind@,
                locator@,
            ),
            MutationKey::SetExecutionConfig(id) => (
                MutationVerb::SetExecutionConfig,
                id.0@,
                none,
                none,
            ),
            MutationKey::StartPlanRun(id) => (MutationVerb::StartPlanRun, id.0@, none, none),
            MutationKey::RetryPushAssignment(id, assignment) => (
                MutationVerb::RetryPushAssignment,
                id.0@,
                assignment.0@,
                none,
            ),
            MutationKey::AbandonStagedAssignment(id, assignment) => (
                MutationVerb::AbandonStagedAssignment,
                id.0@,
                assignment.0@,
                none,
            ),
            MutationKey::ReEnableSourceIssue(id, issue) => (
                MutationVerb::ReEnableSourceIssue,
                id.0@,
                issue.0@,
                none,
            ),
            MutationKey::MarkPrd(id, issue) => (MutationVerb::MarkPrd, id.0@, issue.0@, none),
            MutationKey::UnmarkPrd(id, issue) => (MutationVerb::UnmarkPrd, id.0@, issue.0@, none),
            MutationKey::ArmAutoReplan(id) => (MutationVerb::ArmAutoReplan, id.0@, none, none),
            MutationKey::DisarmAutoReplan(id) => (
                MutationVerb::DisarmAutoReplan,
                id.0@,
                none,
                none,
            ),
            MutationKey::ResumeAutoReplan(id) => (
                MutationVerb::ResumeAutoReplan,
                id.0@,
                none,
                none,
            ),
        };
        KeyModel { verb, project, first, second }
    }
}

impl MutationKey {
    fn parts(&self) -> (parts: (MutationVerb, &str, &str, &str))
        ensures
            self@ == (KeyModel {
                verb: parts.0,
                project: parts.1@,
                first: parts.2@,
                second: parts.3@,
            }),
    {
        proof {
            reveal_strlit("");
            assert(""@ =~= Seq::<char>::empty());
        }
        match self {
            MutationKey::TrustProject(id) => (MutationVerb::TrustProject, id.0.as_str(), "", ""),
            MutationKey::StartAssignment(id, issue) => (
                MutationVerb::StartAssignment,
                id.0.as_str(),
                issue.0.as_str(),
                "",
            ),
            MutationKey::AbandonAssignment(id, assignment) => (
                MutationVerb::AbandonAssignment,
                id.0.as_str(),
                assignment.0.as_str(),
                "",
            ),
            MutationKey::RecoverAssignment(id, assignment) => (
                MutationVerb::RecoverAssignment,
                id.0.as_str(),
                assignment.0.as_str(),
                "",
            ),
            MutationKey::RefreshProposalState(id, assignment) => (
                MutationVerb::RefreshProposalState,
                id.0.as_str(),
                assignment.0.as_str(),
                "",
            ),
            MutationKey::SyncIssueSource(id) => (
                MutationVerb::SyncIssueSource,
                id.0.as_str(),
                "",
                "",
            ),
            MutationKey::EnableIssueSource(id, kind, locator) => (
                MutationVerb::EnableIssueSource,
                id.0.as_str(),
                kind.as_str(),
                locator.as_str(),
            ),
            MutationKey::SetExecutionConfig(id) => (
                MutationVerb::SetExecutionConfig,
                id.0.as_str(),
                "",
                "",
            ),
            MutationKey::StartPlanRun(id) => (MutationVerb::StartPlanRun, id.0.as_str(), "", ""),
            MutationKey::RetryPushAssignment(id, assignment) => (
                MutationVerb::RetryPushAssignment,
                id.0.as_str(),
                assignment.0.as_str(),
                "",
            ),
            MutationKey::AbandonStagedAssignment(id, assignment) => (
                MutationVerb::AbandonStagedAssignment,
                id.0.as_str(),
                assignment.0.as_str(),
                "",
            ),
            MutationKey::ReEnableSourceIssue(id, issue) => (
                MutationVerb::ReEnableSourceIssue,
                id.0.as_str(),
                issue.0.as_str(),
                "",
            ),
            MutationKey::MarkPrd(id, issue) => (
                MutationVerb::MarkPrd,
                id.0.as_str(),
                issue.0.as_str(),
                "",
            ),
            MutationKey::UnmarkPrd(id, issue) => (
                MutationVerb::UnmarkPrd,
                id.0.as_str(),
                issue.0.as_str(),
                "",
            ),
            MutationKey::ArmAutoReplan(id) => (MutationVerb::ArmAutoReplan, id.0.as_str(), "", ""),
            MutationKey::DisarmAutoReplan(id) => (
                MutationVerb::DisarmAutoReplan,
                id.0.as_str(),
                "",
                "",
            ),
            MutationKey::ResumeAutoReplan(id) => (
                MutationVerb::ResumeAutoReplan,
                id.0.as_str(),
                "",
                "",
            ),
        }
    }

    /// Whether the two requests are the same.
    pub fn same_as(&self, other: &MutationKey) -> (same: bool)
        ensures
            same == (self@ == other@),
    {
        let (verb, project, first, second) = self.parts();
        let (other_verb, other_project, other_first, other_second) = other.parts();
        verb == other_verb && same_text(project, other_project) && same_text(first, other_first)
            && same_text(second, other_second)
    }
}

/// How a failure is to be taken.
#[derive(Clone, Copy, Debug, Eq, PartialEq, Structural)]
pub enum MutationCategory {
    /// The request was at fault.
    Validation,
    /// Trying again may help.
    Transient,
    System,
}

/// Where a mutation stands.
#[derive(Clone, Debug, Eq, PartialEq)]
pub enum MutationState {
    Pending,
    Done,
    Error { category: MutationCategory, title: String, detail: String },
}

/// How a failure with the status is to be taken. A failure without a status did
/// not reach the server.
pub open spec fn failure_category(status: Option<u16>) -> MutationCategory {
    match status {
        Some(status) => if 400 <= status < 500 {
            MutationCategory::Validation
        } else if 500 <= status < 600 {
            MutationCategory::Transient
        } else {
            MutationCategory::System
        },
        None => MutationCategory::Transient,
    }
}

/// The state is the error of a failure: the title and the detail of the problem
/// that its body describes, or else the whole body.
pub open spec fn is_failure_state(
    state: MutationState,
    status: Option<u16>,
    body: Seq<char>,
    problem: Option<ProblemDetail>,
) -> bool {
    state matches MutationState::Error { category, title, detail } && category
        == failure_category(status) && match problem {
        Some(problem) => title == problem.title && detail == problem.detail,
        None => title@ == "Request failed"@ && detail@ == body,
    }
}

impl MutationState {
    /// Categorize a failed response. `status` is `None` where the server was not
    /// reached; `problem` is what the body reads as, where it describes a problem.
    pub fn from_failure(status: Option<u16>, body: &str, problem: Option<ProblemDetail>) -> (state:
        MutationState)
        ensures
            is_failure_state(state, status, body@, problem),
    {
        let category = match status {
            Some(status) => {
                if 400 <= status && status < 500 {
                    MutationCategory::Validation
                } else if 500 <= status && status < 600 {
                    MutationCategory::Transient
                } else {
                    MutationCategory::System
                }
            },
            None => MutationCategory::Transient,
        };
        match problem {
            Some(problem) => MutationState::Error {
                category,
                title: problem.title,
                detail: problem.detail,
            },
            None => MutationState::Error {
                category,
                title: "Request failed".to_owned(),
                detail: body.to_owned(),
            },
        }
    }

    /// An equal state.
    pub fn copied(&self) -> (copy: MutationState)
        ensures
            copy == *self,
    {
        match self {
            MutationState::Pending => MutationState::Pending,
            MutationState::Done => MutationState::Done,
            MutationState::Error { category, title, detail } => MutationState::Error {
                category: *category,
                title: title.clone(),
                detail: detail.clone(),
            },
        }
    }
}

/// The states of the entries. Of two entries for one request the later one
/// counts.
pub open spec fn states(entries: Seq<(MutationKey, MutationState)>) -> Map<KeyModel, MutationState>
    decreases entries.len(),
{
    if entries.len() == 0 {
        Map::empty()
    } else {
        states(entries.drop_last()).insert(entries.last().0@, entries.last().1)
    }
}

/// The mutations that the operator has started.
#[derive(Clone, Debug, Eq, PartialEq)]
pub struct MutationsTable {
    entries: Vec<(MutationKey, MutationState)>,
}

impl View for MutationsTable {
    type V = Map<KeyModel, MutationState>;

    closed spec fn view(&self) -> Map<KeyModel, MutationState> {
        states(self.entries@)
    }
}

proof fn lemma_states_at(entries: Seq<(MutationKey, MutationState)>, i: int)
    requires
        0 <= i < entries.len(),
        forall|k: int| i < k < entries.len() ==> (#[trigger] entries[k]).0@ != entries[i].0@,
    ensures
        states(entries).dom().contains(entries[i].0@),
        states(entries)[entries[i].0@] == entries[i].1,
    decreases entries.len(),
{
    if i < entries.len() - 1 {
        let front = entries.drop_last();
        assert(entries[entries.len() - 1].0@ != entries[i].0@);
        assert forall|k: int| i < k < front.len() implies (#[trigger] front[k]).0@
            != front[i].0@ by {
            assert(entries[k].0@ != entries[i].0@);
        }
        lemma_states_at(front, i);
    }
}

proof fn lemma_states_without(entries: Seq<(MutationKey, MutationState)>, key: KeyModel)
    requires
        forall|k: int| 0 <= k < entries.len() ==> (#[trigger] entries[k]).0@ != key,
    ensures
        !states(entries).dom().contains(key),
    decreases entries.len(),
{
    if entries.len() > 0 {
        let front = entries.drop_last();
        assert(entries[entries.len() - 1].0@ != key);
        assert forall|k: int| 0 <= k < front.len() implies (#[trigger] front[k]).0@ != key by {
            assert(entries[k].0@ != key);
        }
        lemma_states_without(front, key);
    }
}

proof fn lemma_states_replaced(
    entries: Seq<(MutationKey, MutationState)>,
    i: int,
    state: MutationState,
)
    requires
        0 <= i < entries.len(),
    ensures
        states(entries.remove(i)).insert(entries[i].0@, state) == states(entries).insert(
            entries[i].0@,
            state,
        ),
    decreases entries.len(),
{
    let key = entries[i].0@;
    let rest = entries.remove(i);
    if i == entries.len() - 1 {
        assert(rest =~= entries.drop_last());
        assert(states(rest).insert(key, state) =~= states(entries).insert(key, state));
    } else {
        let front = entries.drop_last();
        lemma_states_replaced(front, i, state);
        assert(rest.drop_last() =~= front.remove(i));
        assert(rest.last() == entries.last());
        let (last_key, last_state) = (entries.last().0@, entries.last().1);
        let smaller = states(front.remove(i));
        let larger = states(front);
        assert(smaller.insert(key, state) == larger.insert(key, state));
        assert(states(rest) == smaller.insert(last_key, last_state));
        assert(states(entries) == larger.insert(last_key, last_state));
        let left = states(rest).insert(key, state);
        let right = states(entries).insert(key, state);
        assert forall|k: KeyModel|
            #![trigger left.dom().contains(k)]
            #![trigger right.dom().contains(k)]
            left.dom().contains(k) == right.dom().contains(k) && (left.dom().contains(k)
                ==> left[k] == right[k]) by {
            if k != key && k != last_key {
                let (smaller_set, larger_set) = (
                    smaller.insert(key, state),
                    larger.insert(key, state),
                );
                assert(smaller_set.dom().contains(k) == smaller.dom().contains(k));
                assert(larger_set.dom().contains(k) == larger.dom().contains(k));
                assert(smaller_set == larger_set);
                assert(smaller.dom().contains(k) ==> smaller_set[k] == smaller[k]);
                assert(larger.dom().contains(k) ==> larger_set[k] == larger[k]);
            }
        }
        assert(left.dom() =~= right.dom());
        assert(left =~= right);
    }
}

impl Default for MutationsTable {
    fn default() -> (table: MutationsTable)
        ensures
            table.well_formed(),
            table@ == Map::<KeyModel, MutationState>::empty(),
    {
        MutationsTable { entries: Vec::new() }
    }
}

impl MutationsTable {
    /// No request has two entries.
    pub closed spec fn well_formed(&self) -> bool {
        forall|i: int, j: int|
            0 <= i < j < self.entries.len() ==> (#[trigger] self.entries[i]).0@ != (
            #[trigger] self.entries[j]).0@
    }

    pub fn new() -> (table: MutationsTable)
        ensures
            table.well_formed(),
            table@ == Map::<KeyModel, MutationState>::empty(),
    {
        <MutationsTable as Default>::default()
    }

    fn position(&self, key: &MutationKey) -> (at: Option<usize>)
        ensures
            match at {
                Some(at) => at < self.entries.len() && self.entries[at as int].0@ == key@,
                None => forall|k: int|
                    0 <= k < self.entries.len() ==> (#[trigger] self.entries[k]).0@ != key@,
            },
    {
        let mut i: usize = 0;
        while i < self.entries.len()
            invariant
                i <= self.entries.len(),
                forall|k: int| 0 <= k < i ==> (#[trigger] self.entries[k]).0@ != key@,
            decreases self.entries.len() - i,
        {
            if self.entries[i].0.same_as(key) {
                return Some(i);
            }
            i += 1;
        }
        None
    }

    /// Set the state of a request.
    pub fn set(&mut self, key: MutationKey, state: MutationState)
        requires
            old(self).well_formed(),
        ensures
            final(self).well_formed(),
            final(self)@ == old(self)@.insert(key@, state),
    {
        let ghost before = self.entries@;
        match self.position(&key) {
            Some(at) => {
                self.entries.remove(at);
                proof {
                    lemma_states_replaced(before, at as int, state);
                }
            },
            None => {},
        }
        let ghost middle = self.entries@;
        self.entries.push((key, state));
        proof {
            assert(self.entries@.drop_last() =~= middle);
            assert forall|k: int| 0 <= k < middle.len() implies (#[trigger] middle[k]).0@
                != key@ by {
                if before.len() > middle.len() {
                    let at = choose|at: int| 0 <= at < before.len() && before[at].0@ == key@
                        && middle == before.remove(at);
                    if k < at {
                        assert(middle[k] == before[k]);
                    } else {
                        assert(middle[k] == before[k + 1]);
                    }
                }
            }
        }
    }

    pub fn set_pending(&mut self, key: MutationKey)
        requires
            old(self).well_formed(),
        ensures
            final(self).well_formed(),
            final(self)@ == old(self)@.insert(key@, MutationState::Pending),
    {
        self.set(key, MutationState::Pending);
    }

    pub fn set_done(&mut self, key: MutationKey)
        requires
            old(self).well_formed(),
        ensures
            final(self).well_formed(),
            final(self)@ == old(self)@.insert(key@, MutationState::Done),
    {
        self.set(key, MutationState::Done);
    }

    pub fn set_error(
        &mut self,
        key: MutationKey,
        category: MutationCategory,
        title: String,
        detail: String,
    )
        requires
            old(self).well_formed(),
        ensures
            final(self).well_formed(),
            final(self)@ == old(self)@.insert(
                key@,
                MutationState::Error { category, title, detail },
            ),
    {
        self.set(key, MutationState::Error { category, title, detail });
    }

    /// The state of a request, if it was started.
    pub fn get(&self, key: &MutationKey) -> (state: Option<&MutationState>)
        requires
            self.well_formed(),
        ensures
            match state {
                Some(state) => self@.dom().contains(key@) && self@[key@] == *state,
                None => !self@.dom().contains(key@),
            },
    {
        match self.position(key) {
            Some(at) => {
                proof {
                    lemma_states_at(self.entries@, at as int);
                }
                Some(&self.entries[at].1)
            },
            None => {
                proof {
                    lemma_states_without(self.entries@, key@);
                }
                None
            },
        }
    }

    /// Whether the request is under way.
    pub fn is_pending(&self, key: &MutationKey) -> (yes: bool)
        requires
            self.well_formed(),
        ensures
            yes == (self@.dom().contains(key@) && self@[key@] is Pending),
    {
        match self.get(key) {
            Some(MutationState::Pending) => true,
            _ => false,
        }
    }
}

/// Setting the state of one request leaves every other one as it was.
pub proof fn law_requests_are_independent(
    table: Map<KeyModel, MutationState>,
    key: KeyModel,
    state: MutationState,
    other: KeyModel,
)
    requires
        key != other,
    ensures
        table.insert(key, state).dom().contains(other) == table.dom().contains(other),
        table.dom().contains(other) ==> table.insert(key, state)[other] == table[other],
        table.insert(key, state)[key] == state,
{
}

/// A failed request.
#[derive(Clone, Debug, Eq, PartialEq)]
pub struct MutationFailure {
    /// The status of the response; `None` where there was none.
    pub status: Option<u16>,
    pub body: String,
}

impl MutationFailure {
    pub fn network(message: String) -> (failure: MutationFailure)
        ensures
            failure == (MutationFailure { status: None, body: message }),
    {
        MutationFailure { status: None, body: message }
    }

    pub fn http(status: u16, body: String) -> (failure: MutationFailure)
        ensures
            failure == (MutationFailure { status: Some(status), body }),
    {
        MutationFailure { status: Some(status), body }
    }
}

// --- The store ---

#[derive(Clone, Copy, Debug, Eq, PartialEq, Structural)]
pub enum ToastKind {
    Success,
    Error,
}

/// A note to the operator.
#[derive(Clone, Debug, Eq, PartialEq)]
pub struct Toast {
    pub id: u64,
    pub kind: ToastKind,
    pub title: String,
    pub detail: String,
}

/// The toasts without those that have the identifier.
pub open spec fn without_toast(toasts: Seq<Toast>, id: u64) -> Seq<Toast>
    decreases toasts.len(),
{
    if toasts.len() == 0 {
        seq![]
    } else if toasts.last().id == id {
        without_toast(toasts.drop_last(), id)
    } else {
        without_toast(toasts.drop_last(), id).push(toasts.last())
    }
}

/// The dashboard's store.
#[derive(Clone, Debug, Eq, PartialEq)]
pub struct ProjectStore {
    pub mutations: MutationsTable,
    pub toasts: Vec<Toast>,
    pub next_toast_id: u64,
    pub reload_counter: u64,
    pub state: ProjectStoreState,
}

/// A toast is put behind the others, under the next identifier.
pub open spec fn toasted(
    before: ProjectStore,
    after: ProjectStore,
    kind: ToastKind,
    title: Seq<char>,
    detail: Seq<char>,
) -> bool {
    &&& after.toasts@.len() == before.toasts@.len() + 1
    &&& after.toasts@.drop_last() == before.toasts@
    &&& after.toasts@.last().id == before.next_toast_id
    &&& after.toasts@.last().kind == kind
    &&& after.toasts@.last().title@ == title
    &&& after.toasts@.last().detail@ == detail
    &&& after.next_toast_id == before.next_toast_id + 1
}

/// The toasts are as they were.
pub open spec fn same_toasts(before: ProjectStore, after: ProjectStore) -> bool {
    after.toasts == before.toasts && after.next_toast_id == before.next_toast_id
}

impl Default for ProjectStore {
    fn default() -> (store: ProjectStore)
        ensures
            store.well_formed(),
            store.mutations@ == Map::<KeyModel, MutationState>::empty(),
            store.toasts@ == Seq::<Toast>::empty(),
            store.next_toast_id == 1,
            store.reload_counter == 0,
            store.state.activity@ == Seq::<ProjectActivityEntryResponse>::empty(),
            store.state.last_seen_seq == 0,
            !store.state.needs_rehydrate,
    {
        ProjectStore {
            mutations: MutationsTable::new(),
            toasts: Vec::new(),
            next_toast_id: 1,
            reload_counter: 0,
            state: ProjectStoreState::new(),
        }
    }
}

impl ProjectStore {
    /// No request has two entries, and each toast has an identifier that was given
    /// before.
    pub open spec fn well_formed(&self) -> bool {
        &&& self.mutations.well_formed()
        &&& forall|i: int|
            0 <= i < self.toasts@.len() ==> (#[trigger] self.toasts@[i]).id < self.next_toast_id
    }

    pub fn new() -> (store: ProjectStore)
        ensures
            store.well_formed(),
            store.mutations@ == Map::<KeyModel, MutationState>::empty(),
            store.toasts@ == Seq::<Toast>::empty(),
            store.next_toast_id == 1,
            store.reload_counter == 0,
            store.state.activity@ == Seq::<ProjectActivityEntryResponse>::empty(),
            store.state.last_seen_seq == 0,
            !store.state.needs_rehydrate,
    {
        <ProjectStore as Default>::default()
    }

    /// The live state.
    pub fn state_signal(&self) -> (state: &ProjectStoreState)
        ensures
            *state == self.state,
    {
        &self.state
    }

    /// Start over from a snapshot.
    pub fn hydrate(&mut self, snapshot: ProjectSnapshot, sequence: u64)
        requires
            old(self).well_formed(),
        ensures
            final(self).well_formed(),
            final(self).state.activity == snapshot.activity,
            final(self).state.last_seen_seq == sequence,
            !final(self).state.needs_rehydrate,
            final(self).mutations == old(self).mutations,
            same_toasts(*old(self), *final(self)),
            final(self).reload_counter == old(self).reload_counter,
    {
        self.state.hydrate(snapshot, sequence);
    }

    /// Apply an event to the live state.
    pub fn apply_event(&mut self, sequence: u64, event: ProjectEvent) -> (outcome: ApplyOutcome)
        requires
            old(self).well_formed(),
        ensures
            final(self).well_formed(),
            outcome == event_outcome(old(self).state.last_seen_seq, sequence, event),
            match outcome {
                ApplyOutcome::Merged => {
                    &&& final(self).state.activity@ == with_entry(old(self).state.activity@, event)
                    &&& final(self).state.last_seen_seq == sequence
                    &&& final(self).state.needs_rehydrate == old(self).state.needs_rehydrate
                },
                ApplyOutcome::Stale => final(self).state == old(self).state,
                ApplyOutcome::Rehydrate => {
                    &&& final(self).state.activity == old(self).state.activity
                    &&& final(self).state.last_seen_seq == old(self).state.last_seen_seq
                    &&& final(self).state.needs_rehydrate
                },
            },
            final(self).mutations == old(self).mutations,
            same_toasts(*old(self), *final(self)),
            final(self).reload_counter == old(self).reload_counter,
    {
        self.state.apply_event(sequence, event)
    }

    /// Whether the state must be fetched again.
    pub fn needs_rehydrate(&self) -> (yes: bool)
        ensures
            yes == self.state.needs_rehydrate,
    {
        self.state.needs_rehydrate
    }

    /// Take note that the state is being fetched again.
    pub fn clear_rehydrate_flag(&mut self)
        requires
            old(self).well_formed(),
        ensures
            final(self).well_formed(),
            *final(self) == (ProjectStore {
                state: ProjectStoreState { needs_rehydrate: false, ..old(self).state },
                ..*old(self)
            }),
    {
        self.state.needs_rehydrate = false;
    }

    /// How often the Project was to be loaded again.
    pub fn reload_counter(&self) -> (count: u64)
        ensures
            count == self.reload_counter,
    {
        self.reload_counter
    }

    /// Have the Project loaded again.
    pub fn bump_reload(&mut self)
        requires
            old(self).well_formed(),
            old(self).reload_counter < u64::MAX,
        ensures
            final(self).well_formed(),
            *final(self) == (ProjectStore {
                reload_counter: (old(self).reload_counter + 1) as u64,
                ..*old(self)
            }),
    {
        self.reload_counter += 1;
    }

    /// The toasts.
    pub fn toasts(&self) -> (toasts: &Vec<Toast>)
        ensures
            *toasts == self.toasts,
    {
        &self.toasts
    }

    /// Whether the request is under way.
    pub fn is_pending(&self, key: &MutationKey) -> (yes: bool)
        requires
            self.well_formed(),
        ensures
            yes == (self.mutations@.dom().contains(key@) && self.mutations@[key@] is Pending),
    {
        self.mutations.is_pending(key)
    }

    /// The state of a request, if it was started.
    pub fn state(&self, key: &MutationKey) -> (state: Option<MutationState>)
        requires
            self.well_formed(),
        ensures
            match state {
                Some(state) => self.mutations@.dom().contains(key@) && self.mutations@[key@]
                    == state,
                None => !self.mutations@.dom().contains(key@),
            },
    {
        match self.mutations.get(key) {
            Some(state) => Some(state.copied()),
            None => None,
        }
    }

    /// Set the state of a request.
    pub fn force_state(&mut self, key: MutationKey, state: MutationState)
        requires
            old(self).well_formed(),
        ensures
            final(self).well_formed(),
            final(self).mutations@ == old(self).mutations@.insert(key@, state),
            same_toasts(*old(self), *final(self)),
            final(self).reload_counter == old(self).reload_counter,
            final(self).state == old(self).state,
    {
        self.mutations.set(key, state);
    }

    /// Take note that a request was started.
    pub fn begin_mutation(&mut self, key: MutationKey)
        requires
            old(self).well_formed(),
        ensures
            final(self).well_formed(),
            final(self).mutations@ == old(self).mutations@.insert(key@, MutationState::Pending),
            same_toasts(*old(self), *final(self)),
            final(self).reload_counter == old(self).reload_counter,
            final(self).state == old(self).state,
    {
        self.mutations.set_pending(key);
    }

    /// Take note of what a request gave: nothing where it succeeded, or else the
    /// failure and the problem that its body reads as. A request that succeeded has
    /// the Project loaded again. A failure that is not the request's own fault is
    /// also shown in a toast.
    pub fn mutate(
        &mut self,
        key: MutationKey,
        failure: Option<(&MutationFailure, Option<ProblemDetail>)>,
    )
        requires
            old(self).well_formed(),
            old(self).reload_counter < u64::MAX,
            old(self).next_toast_id < u64::MAX,
        ensures
            final(self).well_formed(),
            final(self).state == old(self).state,
            match failure {
                None => {
                    &&& final(self).mutations@ == old(self).mutations@.insert(
                        key@,
                        MutationState::Done,
                    )
                    &&& final(self).reload_counter == old(self).reload_counter + 1
                    &&& same_toasts(*old(self), *final(self))
                },
                Some((failure, problem)) => {
                    &&& final(self).reload_counter == old(self).reload_counter
                    &&& exists|error: MutationState| #[trigger]
                        is_failure_state(
                            error,
                            failure.status,
                            failure.body@,
                            problem,
                        ) && final(self).mutations@ == old(self).mutations@.insert(key@, error)
                            && if failure_category(failure.status) == MutationCategory::Validation {
                            same_toasts(*old(self), *final(self))
                        } else {
                            toasted(
                                *old(self),
                                *final(self),
                                ToastKind::Error,
                                error->title@,
                                error->detail@,
                            )
                        }
                },
            },
    {
        match failure {
            None => {
                self.mutations.set_done(key);
                self.reload_counter += 1;
            },
            Some((failure, problem)) => {
                let ghost described = problem;
                let state = MutationState::from_failure(
                    failure.status,
                    failure.body.as_str(),
                    problem,
                );
                let ghost error = state;
                if let MutationState::Error { category, title, detail } = state {
                    let shown = (title.clone(), detail.clone());
                    self.mutations.set_error(key, category, title, detail);
                    match category {
                        MutationCategory::Validation => {},
                        _ => self.push_toast(ToastKind::Error, shown.0, shown.1),
                    }
                }
                assert(is_failure_state(
                    error,
                    failure.status,
                    failure.body@,
                    described,
                ));
            },
        }
    }

    fn push_toast(&mut self, kind: ToastKind, title: String, detail: String)
        requires
            old(self).well_formed(),
            old(self).next_toast_id < u64::MAX,
        ensures
            final(self).well_formed(),
            toasted(*old(self), *final(self), kind, title@, detail@),
            final(self).mutations == old(self).mutations,
            final(self).reload_counter == old(self).reload_counter,
            final(self).state == old(self).state,
    {
        let id = self.next_toast_id;
        self.next_toast_id += 1;
        self.toasts.push(Toast { id, kind, title, detail });
        assert(self.toasts@.drop_last() =~= old(self).toasts@);
    }

    /// Tell the operator of a success.
    pub fn push_success(&mut self, title: String, detail: String)
        requires
            old(self).well_formed(),
            old(self).next_toast_id < u64::MAX,
        ensures
            final(self).well_formed(),
            toasted(*old(self), *final(self), ToastKind::Success, title@, detail@),
            final(self).mutations == old(self).mutations,
            final(self).reload_counter == old(self).reload_counter,
            final(self).state == old(self).state,
    {
        self.push_toast(ToastKind::Success, title, detail);
    }

    /// Take a toast away.
    pub fn dismiss_toast(&mut self, id: u64)
        requires
            old(self).well_formed(),
        ensures
            final(self).well_formed(),
            final(self).toasts@ == without_toast(old(self).toasts@, id),
            final(self).next_toast_id == old(self).next_toast_id,
            final(self).mutations == old(self).mutations,
            final(self).reload_counter == old(self).reload_counter,
            final(self).state == old(self).state,
    {
        let ghost all = self.toasts@;
        let mut kept: Vec<Toast> = Vec::new();
        let mut i: usize = 0;
        while i < self.toasts.len()
            invariant
                i <= self.toasts.len(),
                self.toasts@ == all,
                *self == *old(self),
                self.well_formed(),
                kept@ == without_toast(all.take(i as int), id),
                forall|k: int|
                    0 <= k < kept@.len() ==> (#[trigger] kept@[k]).id < self.next_toast_id,
            decreases self.toasts.len() - i,
        {
            assert(all.take(i + 1).drop_last() =~= all.take(i as int));
            let toast = &self.toasts[i];
            if toast.id != id {
                kept.push(
                    Toast {
                        id: toast.id,
                        kind: toast.kind,
                        title: toast.title.clone(),
                        detail: toast.detail.clone(),
                    },
                );
            }
            i += 1;
        }
        assert(all.take(i as int) =~= all);
        self.toasts = kept;
    }
}

/// A toast that was dismissed is gone, and no other one is.
pub proof fn law_dismiss_removes_one_toast(toasts: Seq<Toast>, id: u64, toast: Toast)
    ensures
        without_toast(toasts, id).contains(toast) <==> toasts.contains(toast) && toast.id != id,
    decreases toasts.len(),
{
    if toasts.len() > 0 {
        let front = toasts.drop_last();
        law_dismiss_removes_one_toast(front, id, toast);
        let rest = without_toast(toasts, id);
        let before = without_toast(front, id);
        assert(toasts =~= front.push(toasts.last()));
        if toasts.contains(toast) && toast.id != id {
            let k = choose|k: int| 0 <= k < toasts.len() && toasts[k] == toast;
            if k == toasts.len() - 1 {
                assert(rest.last() == toast);
                assert(rest[rest.len() - 1] == toast);
            } else {
                assert(front[k] == toast);
                let m = choose|m: int| 0 <= m < before.len() && before[m] == toast;
                assert(rest[m] == toast);
            }
        }
        if rest.contains(toast) {
            let m = choose|m: int| 0 <= m < rest.len() && rest[m] == toast;
            if toasts.last().id != id && m == rest.len() - 1 {
                assert(toasts[toasts.len() - 1] == toast);
            } else {
                assert(before[m] == toast);
                let k = choose|k: int| 0 <= k < front.len() && front[k] == toast;
                assert(toasts[k] == toast);
            }
        }
    }
}

} // verus!
