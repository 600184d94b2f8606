//! What the dashboard's store does with events, requests and notes.

use vstd::prelude::*;

#[allow(unused_imports)]
use crate::contracts::{ProblemDetail, ProjectEvent, ProjectSnapshot};
#[allow(unused_imports)]
use crate::project_store::{
    without_toast, ApplyOutcome, KeyModel, MutationCategory, MutationFailure, MutationKey,
    MutationState, MutationsTable, ProjectStore, ProjectStoreState, Toast,
};

verus! {

// --- Events ---

/// An event becomes part of the state if and only if it is the one that follows the last, and
/// then it is the last. What was seen changes nothing. Where events are missing, or the server
/// says so, the state is to be fetched again and is otherwise left as it is. An activity is
/// put in front of the others; nothing else changes the activity, the requests or the notes.
pub proof fn law_event_is_applied(
    store: &mut ProjectStore,
    sequence: u64,
    event: ProjectEvent,
    outcome: ApplyOutcome,
)
    requires
        call_ensures(ProjectStore::apply_event, (store, sequence, event), outcome),
    ensures
        outcome is Merged <==> !(event is Resync) && sequence == old(store).state.last_seen_seq + 1,
        outcome is Stale <==> !(event is Resync) && sequence <= old(store).state.last_seen_seq,
        outcome is Merged ==> final(store).state.last_seen_seq == sequence,
        !(outcome is Merged) ==> final(store).state.last_seen_seq
            == old(store).state.last_seen_seq,
        outcome is Merged && event is Activity ==> final(store).state.activity@.len()
            == old(store).state.activity@.len() + 1 && final(store).state.activity@[0]
            == event->Activity_0 && final(store).state.activity@.skip(1)
            == old(store).state.activity@,
        !(outcome is Merged && event is Activity) ==> final(store).state.activity@
            == old(store).state.activity@,
        outcome is Rehydrate ==> final(store).state.needs_rehydrate,
        !(outcome is Rehydrate) ==> final(store).state.needs_rehydrate
            == old(store).state.needs_rehydrate,
        final(store).mutations == old(store).mutations,
        final(store).toasts == old(store).toasts,
        final(store).reload_counter == old(store).reload_counter,
{
    if outcome is Merged && event is Activity {
        assert(final(store).state.activity@.skip(1) =~= old(store).state.activity@);
    }
}

/// The live state by itself takes an event as the store does.
pub proof fn law_state_applies_events(
    state: &mut ProjectStoreState,
    sequence: u64,
    event: ProjectEvent,
    outcome: ApplyOutcome,
)
    requires
        call_ensures(ProjectStoreState::apply_event, (state, sequence, event), outcome),
    ensures
        outcome is Merged <==> !(event is Resync) && sequence == old(state).last_seen_seq + 1,
        outcome is Stale <==> !(event is Resync) && sequence <= old(state).last_seen_seq,
        outcome is Merged ==> final(state).last_seen_seq == sequence,
        !(outcome is Merged) ==> final(state).last_seen_seq == old(state).last_seen_seq,
        outcome is Merged && event is Activity ==> final(state).activity@.len()
            == old(state).activity@.len() + 1 && final(state).activity@[0] == event->Activity_0
            && final(state).activity@.skip(1) == old(state).activity@,
        !(outcome is Merged && event is Activity) ==> final(state).activity@
            == old(state).activity@,
        final(state).needs_rehydrate <==> outcome is Rehydrate || old(state).needs_rehydrate,
{
    if outcome is Merged && event is Activity {
        assert(final(state).activity@.skip(1) =~= old(state).activity@);
    }
}

/// A snapshot replaces the state: its activity and its number count, and nothing is to be
/// fetched any more. The requests and the notes stay.
pub proof fn law_snapshot_replaces_the_state(
    store: &mut ProjectStore,
    snapshot: ProjectSnapshot,
    sequence: u64,
)
    requires
        call_ensures(ProjectStore::hydrate, (store, snapshot, sequence), ()),
    ensures
        final(store).state.activity@ == snapshot.activity@,
        final(store).state.last_seen_seq == sequence,
        !final(store).state.needs_rehydrate,
        final(store).mutations == old(store).mutations,
        final(store).toasts == old(store).toasts,
        final(store).reload_counter == old(store).reload_counter,
{
}

/// A store begins with nothing seen, nothing asked for and nothing to say.
pub proof fn law_store_begins_empty(store: ProjectStore)
    requires
        call_ensures(ProjectStore::new, (), store),
    ensures
        store.state.last_seen_seq == 0,
        store.state.activity@.len() == 0,
        !store.state.needs_rehydrate,
        store.toasts@.len() == 0,
        store.reload_counter == 0,
        forall|key: KeyModel| !#[trigger] store.mutations@.dom().contains(key),
{
}

/// A live state begins with nothing seen.
pub proof fn law_state_begins_empty(state: ProjectStoreState, default_state: ProjectStoreState)
    requires
        call_ensures(ProjectStoreState::new, (), state),
        call_ensures(<ProjectStoreState as Default>::default, (), default_state),
    ensures
        state.last_seen_seq == 0 && default_state.last_seen_seq == 0,
        state.activity@.len() == 0 && default_state.activity@.len() == 0,
        !state.needs_rehydrate && !default_state.needs_rehydrate,
{
}

/// Taking note that the state is fetched again clears the wish for it, and nothing else.
pub proof fn law_fetch_is_noted(store: &mut ProjectStore)
    requires
        call_ensures(ProjectStore::clear_rehydrate_flag, (store,), ()),
    ensures
        !final(store).state.needs_rehydrate,
        final(store).state.last_seen_seq == old(store).state.last_seen_seq,
        final(store).state.activity == old(store).state.activity,
        final(store).mutations == old(store).mutations,
        final(store).toasts == old(store).toasts,
        final(store).reload_counter == old(store).reload_counter,
{
}

/// Having the Project loaded again counts one up, and changes nothing else.
pub proof fn law_reload_counts_up(store: &mut ProjectStore)
    requires
        old(store).reload_counter < u64::MAX,
        call_ensures(ProjectStore::bump_reload, (store,), ()),
    ensures
        final(store).reload_counter == old(store).reload_counter + 1,
        final(store).state == old(store).state,
        final(store).mutations == old(store).mutations,
        final(store).toasts == old(store).toasts,
{
}

// --- Requests ---

/// Two requests are the same if and only if they ask for the same thing of the same Project,
/// for the same issue, assignment or source.
pub proof fn law_requests_are_told_apart(key: &MutationKey, other: &MutationKey, same: bool)
    requires
        call_ensures(MutationKey::same_as, (key, other), same),
    ensures
        same == (match key {
            MutationKey::TrustProject(project) => other matches MutationKey::TrustProject(of) && project.0@
                == of.0@,
            MutationKey::SyncIssueSource(project) => other matches MutationKey::SyncIssueSource(of) && project.0@
                == of.0@,
            MutationKey::SetExecutionConfig(project) => other matches MutationKey::SetExecutionConfig(of) && project.0@
                == of.0@,
            MutationKey::StartPlanRun(project) => other matches MutationKey::StartPlanRun(of) && project.0@
                == of.0@,
            MutationKey::ArmAutoReplan(project) => other matches MutationKey::ArmAutoReplan(of) && project.0@
                == of.0@,
            MutationKey::DisarmAutoReplan(project) => other matches MutationKey::DisarmAutoReplan(of) && project.0@
                == of.0@,
            MutationKey::ResumeAutoReplan(project) => other matches MutationKey::ResumeAutoReplan(of) && project.0@
                == of.0@,
            MutationKey::StartAssignment(project, id) => other matches MutationKey::StartAssignment(of, its)
                && project.0@ == of.0@ && id.0@ == its.0@,
            MutationKey::AbandonAssignment(project, id) => other matches MutationKey::AbandonAssignment(of, its)
                && project.0@ == of.0@ && id.0@ == its.0@,
            MutationKey::RecoverAssignment(project, id) => other matches MutationKey::RecoverAssignment(of, its)
                && project.0@ == of.0@ && id.0@ == its.0@,
            MutationKey::RefreshProposalState(project, id) => other matches MutationKey::RefreshProposalState(of, its)
                && project.0@ == of.0@ && id.0@ == its.0@,
            MutationKey::RetryPushAssignment(project, id) => other matches MutationKey::RetryPushAssignment(of, its)
                && project.0@ == of.0@ && id.0@ == its.0@,
            MutationKey::AbandonStagedAssignment(project, id) => other matches MutationKey::AbandonStagedAssignment(of, its)
                && project.0@ == of.0@ && id.0@ == its.0@,
            MutationKey::ReEnableSourceIssue(project, id) => other matches MutationKey::ReEnableSourceIssue(of, its)
                && project.0@ == of.0@ && id.0@ == its.0@,
            MutationKey::MarkPrd(project, id) => other matches MutationKey::MarkPrd(of, its)
                && project.0@ == of.0@ && id.0@ == its.0@,
            MutationKey::UnmarkPrd(project, id) => other matches MutationKey::UnmarkPrd(of, its)
                && project.0@ == of.0@ && id.0@ == its.0@,
            MutationKey::EnableIssueSource(project, kind, locator) =>
                other matches MutationKey::EnableIssueSource(of, its_kind, its_locator) && project.0@
                == of.0@ && kind@ == its_kind@ && locator@ == its_locator@,
        }),
{
}

/// A failure is taken by its status: one of the 400s is the fault of the request, one of the
/// 500s and one without a status may pass, and any other is the system's. The problem that the
/// body describes is shown, or else the body itself.
pub proof fn law_failure_is_taken(
    status: Option<u16>,
    body: &str,
    problem: Option<ProblemDetail>,
    state: MutationState,
)
    requires
        call_ensures(MutationState::from_failure, (status, body, problem), state),
    ensures
        state matches MutationState::Error { category, title, detail } && {
            &&& category is Validation <==> (status matches Some(code) && 400 <= code <= 499)
            &&& category is Transient <==> status is None || (status matches Some(code) && 500
                <= code <= 599)
            &&& problem matches Some(described) ==> title@ == described.title@ && detail@
                == described.detail@
            &&& problem is None ==> title@ == "Request failed"@ && detail@ == body@
        },
{
}

/// A failure without a response has no status, and one with a response has its status.
pub proof fn law_failure_keeps_its_status(
    message: String,
    lost: MutationFailure,
    status: u16,
    body: String,
    refused: MutationFailure,
)
    requires
        call_ensures(MutationFailure::network, (message,), lost),
        call_ensures(MutationFailure::http, (status, body), refused),
    ensures
        lost.status is None && lost.body == message,
        refused.status == Some(status) && refused.body == body,
{
}

/// A request that was started is under way, and no other one is touched. Nothing is noted and
/// nothing is loaded for it.
pub proof fn law_request_begins(store: &mut ProjectStore, key: MutationKey, other: KeyModel)
    requires
        call_ensures(ProjectStore::begin_mutation, (store, key), ()),
    ensures
        final(store).mutations@.dom().contains(key@),
        final(store).mutations@[key@] is Pending,
        other != key@ ==> (final(store).mutations@.dom().contains(other)
            <==> old(store).mutations@.dom().contains(other)),
        other != key@ && old(store).mutations@.dom().contains(other) ==> final(store).mutations@[other] == old(store).mutations@[other],
        final(store).toasts == old(store).toasts,
        final(store).reload_counter == old(store).reload_counter,
        final(store).state == old(store).state,
{
}

/// A request that succeeded is done and has the Project loaded again, without a note. One that
/// failed shows its failure and loads nothing; the operator gets a note of it, behind the
/// others, unless the request itself was at fault. No other request is touched.
pub proof fn law_request_ends(
    store: &mut ProjectStore,
    key: MutationKey,
    failure: &MutationFailure,
    problem: Option<ProblemDetail>,
    succeeded: bool,
    other: KeyModel,
)
    requires
        old(store).reload_counter < u64::MAX,
        old(store).next_toast_id < u64::MAX,
        succeeded ==> call_ensures(ProjectStore::mutate, (store, key, None), ()),
        !succeeded ==> call_ensures(
            ProjectStore::mutate,
            (store, key, Some((failure, problem))),
            (),
        ),
    ensures
        final(store).mutations@.dom().contains(key@),
        final(store).mutations@[key@] is Done <==> succeeded,
        final(store).mutations@[key@] is Error <==> !succeeded,
        final(store).reload_counter == old(store).reload_counter + (if succeeded {
            1int
        } else {
            0int
        }),
        other != key@ ==> (final(store).mutations@.dom().contains(other)
            <==> old(store).mutations@.dom().contains(other)),
        other != key@ && old(store).mutations@.dom().contains(other) ==> final(store).mutations@[other] == old(store).mutations@[other],
        final(store).state == old(store).state,
        ({
            let at_fault = failure.status matches Some(code) && 400 <= code <= 499;
            let shown = final(store).mutations@[key@];
            if succeeded || at_fault {
                final(store).toasts == old(store).toasts
            } else {
                &&& final(store).toasts@.len() == old(store).toasts@.len() + 1
                &&& final(store).toasts@.drop_last() == old(store).toasts@
                &&& final(store).toasts@.last().kind is Error
                &&& final(store).toasts@.last().title@ == shown->title@
                &&& final(store).toasts@.last().detail@ == shown->detail@
                &&& final(store).toasts@.last().id == old(store).next_toast_id
            }
        }),
        !succeeded && problem is Some ==> final(store).mutations@[key@]->title@
            == problem->0.title@ && final(store).mutations@[key@]->detail@ == problem->0.detail@,
        !succeeded && problem is None ==> final(store).mutations@[key@]->detail@ == failure.body@,
{
}

/// A state that is set for a request is the one that is found for it, and no other request is
/// touched.
pub proof fn law_set_state_is_found(
    table: &mut MutationsTable,
    key: MutationKey,
    state: MutationState,
    other: KeyModel,
)
    requires
        old(table).well_formed(),
        call_ensures(MutationsTable::set, (table, key, state), ()),
    ensures
        final(table)@.dom().contains(key@),
        final(table)@[key@] == state,
        other != key@ ==> (final(table)@.dom().contains(other) <==> old(table)@.dom().contains(
            other,
        )),
        other != key@ && old(table)@.dom().contains(other) ==> final(table)@[other] == old(table)@[other],
{
}

/// A request is under way if and only if the state that is found for it says so.
pub proof fn law_pending_is_found(
    store: &ProjectStore,
    key: &MutationKey,
    state: Option<MutationState>,
    pending: bool,
)
    requires
        store.well_formed(),
        call_ensures(ProjectStore::state, (store, key), state),
        call_ensures(ProjectStore::is_pending, (store, key), pending),
    ensures
        pending <==> state == Some(MutationState::Pending),
{
}

// --- Notes ---

/// A success is noted behind what was noted before, under an identifier that no note has.
pub proof fn law_success_is_noted(store: &mut ProjectStore, title: String, detail: String)
    requires
        old(store).well_formed(),
        old(store).next_toast_id < u64::MAX,
        call_ensures(ProjectStore::push_success, (store, title, detail), ()),
    ensures
        final(store).toasts@.len() == old(store).toasts@.len() + 1,
        final(store).toasts@.drop_last() == old(store).toasts@,
        final(store).toasts@.last().kind is Success,
        final(store).toasts@.last().title@ == title@,
        final(store).toasts@.last().detail@ == detail@,
        forall|i: int|
            0 <= i < old(store).toasts@.len() ==> (#[trigger] old(store).toasts@[i]).id != final(store).toasts@.last().id,
        final(store).mutations == old(store).mutations,
        final(store).reload_counter == old(store).reload_counter,
        final(store).state == old(store).state,
{
}

/// Dismissing a note takes it away and leaves the others as they were, in their order.
pub proof fn law_dismissed_note_is_gone(
    toasts: Seq<Toast>,
    last: Toast,
    id: u64,
)
    ensures
        last.id == id ==> without_toast(toasts.push(last), id) == without_toast(toasts, id),
        last.id != id ==> without_toast(toasts.push(last), id) == without_toast(toasts, id).push(
            last,
        ),
        without_toast(Seq::<Toast>::empty(), id).len() == 0,
{
    assert(toasts.push(last).drop_last() =~= toasts);
}

/// Dismissing a note touches nothing but the notes.
pub proof fn law_dismissal_touches_notes_alone(store: &mut ProjectStore, id: u64)
    requires
        old(store).well_formed(),
        call_ensures(ProjectStore::dismiss_toast, (store, id), ()),
    ensures
        final(store).toasts@ == without_toast(old(store).toasts@, id),
        final(store).next_toast_id == old(store).next_toast_id,
        final(store).mutations == old(store).mutations,
        final(store).reload_counter == old(store).reload_counter,
        final(store).state == old(store).state,
{
}

/// A state that is put in for a request, by force or as under way, done or failed, is the one
/// that is found for it.
pub proof fn law_states_are_put_in(
    store: &mut ProjectStore,
    key: MutationKey,
    state: MutationState,
    other: KeyModel,
)
    requires
        call_ensures(ProjectStore::force_state, (store, key, state), ()),
    ensures
        final(store).mutations@.dom().contains(key@),
        final(store).mutations@[key@] == state,
        other != key@ && old(store).mutations@.dom().contains(other) ==> final(store).mutations@[
            other
        ] == old(store).mutations@[other],
        final(store).toasts == old(store).toasts,
        final(store).reload_counter == old(store).reload_counter,
        final(store).state == old(store).state,
{
}

/// The state of a request that the table finds is the one that was put in for it.
pub proof fn law_table_states(
    table: &mut MutationsTable,
    key: MutationKey,
    category: MutationCategory,
    title: String,
    detail: String,
    how: int,
)
    requires
        old(table).well_formed(),
        how == 0 ==> call_ensures(MutationsTable::set_pending, (table, key), ()),
        how == 1 ==> call_ensures(MutationsTable::set_done, (table, key), ()),
        how == 2 ==> call_ensures(
            MutationsTable::set_error,
            (table, key, category, title, detail),
            (),
        ),
    ensures
        how == 0 ==> final(table)@.dom().contains(key@) && final(table)@[key@] is Pending,
        how == 1 ==> final(table)@.dom().contains(key@) && final(table)@[key@] is Done,
        how == 2 ==> final(table)@.dom().contains(key@) && final(table)@[key@] == (
        MutationState::Error { category, title, detail }),
{
}

} // verus!
