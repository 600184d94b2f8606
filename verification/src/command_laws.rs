//! What the commands that the library runs do, and what is reported of them.

use vstd::prelude::*;

#[allow(unused_imports)]
use crate::abandon::{remove_assignment_worktree, removal_args};
#[allow(unused_imports)]
use crate::command::{command_failure, describe_exit, failure_text, CommandRun};
#[allow(unused_imports)]
use crate::plan_run::PlanRunPhaseError;
#[allow(unused_imports)]
use crate::production::{
    CleanupStep, GitAssignmentWorktreeCleaner, GitIntegrationBranchPusher,
    GitIntegrationBranchRefresher, RefreshNext, RefreshStep,
};
#[allow(unused_imports)]
use crate::push_attempt::{
    classify_push_result, is_non_fast_forward_stderr, reports_divergence, PushOutcome,
};
#[allow(unused_imports)]
use crate::text::{ascii_lower, contains_text, matches_at, trim, views};
#[allow(unused_imports)]
use crate::verify::{cleanup_assignment_worktree, AcceptedCleanup};

verus! {

// --- Texts that report ---

/// The text ends in the part.
pub open spec fn ends_with(text: Seq<char>, part: Seq<char>) -> bool {
    text.len() >= part.len() && text.skip(text.len() - part.len()) == part
}

/// The text begins with the part.
pub open spec fn begins(text: Seq<char>, part: Seq<char>) -> bool {
    text.len() >= part.len() && text.take(part.len() as int) == part
}

/// The program ended, and ended well.
pub open spec fn ended_well(run: CommandRun) -> bool {
    run matches CommandRun::Ended { success, .. } && success
}

/// The text tells of a failed run: why it was not started, or its exit status and the
/// errors that it printed.
pub open spec fn tells_of(text: Seq<char>, run: CommandRun) -> bool {
    match run {
        CommandRun::NotStarted { error } => ends_with(text, error@),
        CommandRun::Ended { success, status, stdout, stderr } => contains_text(text, status@)
            && ends_with(text, trim(stderr@)),
    }
}

pub proof fn lemma_middle(a: Seq<char>, b: Seq<char>, c: Seq<char>)
    ensures
        contains_text(a + b + c, b),
        contains_text(a + b, b),
        ends_with(a + b, b),
        ends_with(a + b + c, c),
{
    assert((a + b + c).subrange(a.len() as int, (a.len() + b.len()) as int) =~= b);
    assert(matches_at(a + b + c, b, a.len() as int));
    assert((a + b).subrange(a.len() as int, (a.len() + b.len()) as int) =~= b);
    assert(matches_at(a + b, b, a.len() as int));
    assert((a + b).skip((a + b).len() - b.len()) =~= b);
    assert((a + b + c).skip((a + b + c).len() - c.len()) =~= c);
}

pub proof fn lemma_contains_more(a: Seq<char>, text: Seq<char>, c: Seq<char>, part: Seq<char>)
    requires
        contains_text(text, part),
    ensures
        contains_text(a + text + c, part),
        contains_text(a + text, part),
{
    let at = choose|at: int| #[trigger] matches_at(text, part, at);
    assert((a + text + c).subrange(a.len() + at, a.len() + at + part.len()) =~= text.subrange(
        at,
        at + part.len(),
    ));
    assert(matches_at(a + text + c, part, a.len() + at));
    assert((a + text).subrange(a.len() + at, a.len() + at + part.len()) =~= text.subrange(
        at,
        at + part.len(),
    ));
    assert(matches_at(a + text, part, a.len() + at));
}

proof fn lemma_ends_with_more(a: Seq<char>, text: Seq<char>, part: Seq<char>)
    requires
        ends_with(text, part),
    ensures
        ends_with(a + text, part),
{
    assert((a + text).skip((a + text).len() - part.len()) =~= text.skip(text.len() - part.len()));
}

proof fn lemma_ends_with_nothing(text: Seq<char>, part: Seq<char>)
    requires
        part.len() == 0,
    ensures
        ends_with(text, part),
{
    assert(text.skip(text.len() - part.len()) =~= part);
}

/// The report of a failed program begins with what it was for. It holds the exit status,
/// and ends in what the program printed as its errors.
pub proof fn law_failure_is_described(label: &str, status: &str, stderr: &str, text: String)
    requires
        call_ensures(command_failure, (label, status, stderr), text),
    ensures
        text@.len() >= label@.len() && text@.take(label@.len() as int) == label@,
        contains_text(text@, status@),
        ends_with(text@, trim(stderr@)),
        trim(stderr@).len() == 0 ==> ends_with(text@, status@),
{
    let said = label@ + " exited with "@;
    lemma_middle(said, status@, ": "@ + trim(stderr@));
    if trim(stderr@).len() == 0 {
        lemma_middle(said, status@, seq![]);
        lemma_ends_with_nothing(text@, trim(stderr@));
    } else {
        assert(text@ =~= said + status@ + (": "@ + trim(stderr@)));
        lemma_middle(said + status@, ": "@, trim(stderr@));
    }
    assert(text@.take(label@.len() as int) =~= label@);
}

/// An exit is described by its status, and by what the program printed as its errors
/// where it printed any.
pub proof fn law_exit_is_described(status: &str, stderr: &str, text: String)
    requires
        call_ensures(describe_exit, (status, stderr), text),
    ensures
        contains_text(text@, status@),
        ends_with(text@, trim(stderr@)),
        trim(stderr@).len() == 0 ==> ends_with(text@, status@),
{
    lemma_exit_text(status@, stderr@, text@);
}

proof fn lemma_exit_text(status: Seq<char>, stderr: Seq<char>, text: Seq<char>)
    requires
        text == crate::command::exit_text(status, stderr),
    ensures
        contains_text(text, status),
        ends_with(text, trim(stderr)),
        trim(stderr).len() == 0 ==> ends_with(text, status),
{
    let said = "exit status "@;
    lemma_middle(said, status, ": "@ + trim(stderr));
    if trim(stderr).len() == 0 {
        lemma_middle(said, status, seq![]);
        lemma_ends_with_nothing(text, trim(stderr));
    } else {
        assert(text =~= said + status + (": "@ + trim(stderr)));
        lemma_middle(said + status, ": "@, trim(stderr));
    }
}

/// What a failed program said is never less than one of its two outputs: errors count
/// for more than what it printed, and the exit status is given only where it said nothing.
pub proof fn law_program_speaks_for_itself(
    fallback: &str,
    status: &str,
    stdout: &str,
    stderr: &str,
    text: String,
)
    requires
        call_ensures(failure_text, (fallback, status, stdout, stderr), text),
    ensures
        trim(stderr@).len() > 0 ==> text@ == trim(stderr@),
        trim(stderr@).len() == 0 && trim(stdout@).len() > 0 ==> text@ == trim(stdout@),
        trim(stderr@).len() == 0 && trim(stdout@).len() == 0 ==> text@ == fallback@ + status@,
{
}

// --- Refreshing the Integration Branch ---

/// One refresh: each command but the last was followed by the next one.
pub open spec fn is_refresh(
    refresher: GitIntegrationBranchRefresher,
    branch: &str,
    steps: Seq<RefreshStep>,
    runs: Seq<CommandRun>,
) -> bool {
    &&& steps.len() == runs.len()
    &&& steps.len() > 0
    &&& call_ensures(GitIntegrationBranchRefresher::first, (&refresher,), steps[0])
    &&& forall|k: int|
        0 <= k < steps.len() - 1 ==> call_ensures(
            GitIntegrationBranchRefresher::advance,
            (&refresher, steps[k], branch, &#[trigger] runs[k]),
            Ok(RefreshNext::Run(steps[k + 1])),
        )
}

proof fn lemma_refresh(
    refresher: GitIntegrationBranchRefresher,
    branch: &str,
    steps: Seq<RefreshStep>,
    runs: Seq<CommandRun>,
)
    requires
        is_refresh(refresher, branch, steps, runs),
    ensures
        steps.len() <= 4,
        forall|k: int|
            0 <= k < steps.len() ==> #[trigger] steps[k] == (if k == 0 {
                RefreshStep::Fetch
            } else if k == 1 {
                RefreshStep::Checkout
            } else if k == 2 {
                RefreshStep::Pull
            } else {
                RefreshStep::Head
            }),
        forall|k: int| 0 <= k < steps.len() - 1 ==> ended_well(#[trigger] runs[k]),
{
    if steps.len() > 1 {
        assert(ended_well(runs[0]) && steps[1] == RefreshStep::Checkout) by {
            let run = runs[0];
        }
    }
    if steps.len() > 2 {
        assert(ended_well(runs[1]) && steps[2] == RefreshStep::Pull) by {
            let run = runs[1];
        }
    }
    if steps.len() > 3 {
        assert(ended_well(runs[2]) && steps[3] == RefreshStep::Head) by {
            let run = runs[2];
        }
    }
    if steps.len() > 4 {
        assert(false) by {
            let run = runs[3];
        }
    }
    assert forall|k: int| 0 <= k < steps.len() - 1 implies ended_well(#[trigger] runs[k]) by {
        assert(k == 0 || k == 1 || k == 2);
    }
}

/// A refresh fetches the branch, checks it out, pulls it without a merge, and asks for
/// the commit, each command only after the one before it ended well. The baseline is what
/// the last one printed. A refresh fails if and only if a command did, and its error tells
/// of that command.
pub proof fn law_refresh(
    refresher: GitIntegrationBranchRefresher,
    branch: &str,
    steps: Seq<RefreshStep>,
    runs: Seq<CommandRun>,
    args: Vec<String>,
    result: Result<RefreshNext, PlanRunPhaseError>,
)
    requires
        is_refresh(refresher, branch, steps, runs),
        call_ensures(RefreshStep::args, (steps.last(), branch), args),
        call_ensures(
            GitIntegrationBranchRefresher::advance,
            (&refresher, steps.last(), branch, &runs.last()),
            result,
        ),
    ensures
        forall|k: int| 0 <= k < steps.len() - 1 ==> ended_well(#[trigger] runs[k]),
        views(args@) == (if steps.len() == 1 {
            seq!["fetch"@, "origin"@, branch@]
        } else if steps.len() == 2 {
            seq!["checkout"@, branch@]
        } else if steps.len() == 3 {
            seq!["pull"@, "--ff-only"@, "origin"@, branch@]
        } else {
            seq!["rev-parse"@, "HEAD"@]
        }),
        result is Ok <==> ended_well(runs.last()),
        (result matches Ok(RefreshNext::Done(_))) <==> steps.len() == 4 && ended_well(runs.last()),
        result matches Ok(RefreshNext::Done(baseline)) ==> baseline.commit_sha@ == trim(
            runs.last()->stdout@,
        ),
        result matches Err(error) ==> (error matches PlanRunPhaseError::Refresh(text)
            && tells_of(text@, runs.last())),
        runs.last() is NotStarted ==> result->Err_0->Refresh_0@ == (if steps.len() == 1 {
            "git fetch failed: "@
        } else if steps.len() == 2 {
            "git checkout failed: "@
        } else if steps.len() == 3 {
            "git pull failed: "@
        } else {
            "git rev-parse failed: "@
        }) + runs.last()->NotStarted_error@,
        runs.last() is Ended && result is Err ==> begins(
            result->Err_0->Refresh_0@,
            if steps.len() == 1 {
                "git fetch origin "@ + branch@
            } else if steps.len() == 2 {
                "git checkout "@ + branch@
            } else if steps.len() == 3 {
                "git pull --ff-only origin "@ + branch@
            } else {
                "git rev-parse HEAD"@
            },
        ),
{
    lemma_refresh(refresher, branch, steps, runs);
    let last = steps[steps.len() - 1];
    assert(last == steps.last());
    lemma_refresh_end(last, branch@, runs.last(), result);
}

proof fn lemma_refresh_end(
    step: RefreshStep,
    branch: Seq<char>,
    run: CommandRun,
    result: Result<RefreshNext, PlanRunPhaseError>,
)
    requires
        crate::production::is_refresh_step(step, branch, run, result),
    ensures
        result is Ok <==> ended_well(run),
        (result matches Ok(RefreshNext::Done(_))) <==> step == RefreshStep::Head && ended_well(run),
        result matches Ok(RefreshNext::Done(baseline)) ==> baseline.commit_sha@ == trim(
            run->stdout@,
        ),
        result matches Err(error) ==> (error matches PlanRunPhaseError::Refresh(text) && tells_of(
            text@,
            run,
        )),
        run is NotStarted ==> result->Err_0->Refresh_0@ == step.start_label()
            + run->NotStarted_error@,
        run is Ended && result is Err ==> begins(result->Err_0->Refresh_0@, step.label(branch)),
{
    match run {
        CommandRun::NotStarted { error } => {
            lemma_middle(step.start_label(), error@, seq![]);
        },
        CommandRun::Ended { success, status, stdout, stderr } => {
            let exit = crate::command::exit_text(status@, stderr@);
            let label = step.label(branch) + ": "@;
            assert((label + exit).take(step.label(branch).len() as int) =~= step.label(branch));
            lemma_exit_text(status@, stderr@, exit);
            lemma_contains_more(label, exit, seq![], status@);
            lemma_ends_with_more(label, exit, trim(stderr@));
        },
    }
}

// --- Pushing the Integration Branch ---

/// The words by which `git` and a remote say that a branch has diverged.
pub open spec fn is_divergence_phrase(phrase: Seq<char>) -> bool {
    ||| phrase == "non-fast-forward"@
    ||| phrase == "non fast forward"@
    ||| phrase == "fetch first"@
    ||| phrase == "would not be a fast-forward"@
    ||| phrase == "would not be a fast forward"@
    ||| phrase == "updates were rejected"@
    ||| phrase == "tip of your current branch is behind"@
}

/// A text reports a divergence if and only if it holds one of the phrases, whatever the
/// case of its letters is.
pub proof fn law_divergence_is_recognised(stderr: &str, yes: bool)
    requires
        call_ensures(is_non_fast_forward_stderr, (stderr,), yes),
    ensures
        yes <==> exists|phrase: Seq<char>| #[trigger]
            is_divergence_phrase(phrase) && contains_text(ascii_lower(stderr@), phrase),
{
    let lower = ascii_lower(stderr@);
    if yes {
        assert(is_divergence_phrase("non-fast-forward"@));
        assert(is_divergence_phrase("non fast forward"@));
        assert(is_divergence_phrase("fetch first"@));
        assert(is_divergence_phrase("would not be a fast-forward"@));
        assert(is_divergence_phrase("would not be a fast forward"@));
        assert(is_divergence_phrase("updates were rejected"@));
        assert(is_divergence_phrase("tip of your current branch is behind"@));
    }
}

/// A push pushes the branch to `origin`. It succeeds if and only if `git` ended well; what
/// the remote said of a divergence is kept whole, and any other error tells of the
/// command.
pub proof fn law_push(
    pusher: GitIntegrationBranchPusher,
    branch: &str,
    run: CommandRun,
    args: Vec<String>,
    result: Result<(), PlanRunPhaseError>,
    diverged: bool,
)
    requires
        call_ensures(GitIntegrationBranchPusher::args, (&pusher, branch), args),
        call_ensures(GitIntegrationBranchPusher::result, (&pusher, branch, &run), result),
        run matches CommandRun::Ended { stderr, .. } ==> diverged == reports_divergence(stderr@),
    ensures
        views(args@) == seq!["push"@, "origin"@, branch@],
        result is Ok <==> ended_well(run),
        result matches Err(PlanRunPhaseError::NonFastForward { stderr }) ==> run is Ended
            && !ended_well(run) && diverged && stderr@ == run->stderr@,
        run is Ended && !ended_well(run) && diverged ==> result matches Err(
            PlanRunPhaseError::NonFastForward { .. },
        ),
        result matches Err(error) ==> (error is NonFastForward || (
        error matches PlanRunPhaseError::IntegrationPush(text) && tells_of(text@, run))),
        run matches CommandRun::NotStarted { error } ==> result->Err_0->IntegrationPush_0@
            == "git push failed to spawn: "@ + error@,
        run is Ended && result is Err && !diverged ==> begins(
            result->Err_0->IntegrationPush_0@,
            "git push origin "@ + branch@,
        ),
{
    match run {
        CommandRun::NotStarted { error } => {
            lemma_middle("git push failed to spawn: "@, error@, seq![]);
        },
        CommandRun::Ended { success, status, stdout, stderr } => {
            let exit = crate::command::exit_text(status@, stderr@);
            let label = "git push origin "@ + branch@ + ": "@;
            let named = "git push origin "@ + branch@;
            assert((label + exit).take(named.len() as int) =~= named);
            lemma_exit_text(status@, stderr@, exit);
            lemma_contains_more(label, exit, seq![], status@);
            lemma_ends_with_more(label, exit, trim(stderr@));
        },
    }
}

/// What is stored of a push agrees with what the push gave: `succeeded`, and a
/// fast-forward, if and only if the remote took it. A failed one keeps its text.
pub proof fn law_push_outcome_is_stored(
    result: Result<(), PlanRunPhaseError>,
    outcome: PushOutcome,
    word: &'static str,
    fast_forward: bool,
)
    requires
        call_ensures(classify_push_result, (result,), outcome),
        call_ensures(PushOutcome::outcome_str, (&outcome,), word),
        call_ensures(PushOutcome::fast_forward, (&outcome,), fast_forward),
    ensures
        fast_forward <==> result is Ok,
        result is Ok ==> outcome is Success && word@ == "succeeded"@,
        result is Err ==> word@ == "failed"@,
        result matches Err(PlanRunPhaseError::NonFastForward { stderr }) ==> (
        outcome matches PushOutcome::NonFastForward { detail } && detail@ == stderr@),
        result matches Err(PlanRunPhaseError::IntegrationPush(text)) ==> (match outcome {
            PushOutcome::Success => false,
            PushOutcome::NonFastForward { detail } => reports_divergence(text@) && detail@ == text@,
            PushOutcome::Other { detail } => !reports_divergence(text@) && detail@ == text@,
        }),
        result matches Err(PlanRunPhaseError::Cleanup(_)) ==> outcome is Other,
        result matches Err(PlanRunPhaseError::Merge(_)) ==> outcome is Other,
{
}

// --- Cleaning up ---

/// A cleanup removes the worktree by force, and then deletes its branch; a command that
/// failed ends it, and its error tells of that command.
pub proof fn law_cleanup(
    cleaner: GitAssignmentWorktreeCleaner,
    worktree: &str,
    branch: &str,
    first: CleanupStep,
    run: CommandRun,
    next: Result<Option<CleanupStep>, PlanRunPhaseError>,
    again: CommandRun,
    last: Result<Option<CleanupStep>, PlanRunPhaseError>,
    args: Vec<String>,
    more: Vec<String>,
)
    requires
        call_ensures(GitAssignmentWorktreeCleaner::first, (&cleaner,), first),
        call_ensures(CleanupStep::args, (first, worktree, branch), args),
        call_ensures(
            GitAssignmentWorktreeCleaner::advance,
            (&cleaner, first, worktree, branch, &run),
            next,
        ),
        next matches Ok(Some(second)) ==> {
            &&& call_ensures(CleanupStep::args, (second, worktree, branch), more)
            &&& call_ensures(
                GitAssignmentWorktreeCleaner::advance,
                (&cleaner, second, worktree, branch, &again),
                last,
            )
        },
    ensures
        views(args@) == seq!["worktree"@, "remove"@, "--force"@, worktree@],
        (next matches Ok(Some(_))) <==> ended_well(run),
        next is Err <==> !ended_well(run),
        next matches Err(error) ==> (error matches PlanRunPhaseError::Cleanup(text) && tells_of(
            text@,
            run,
        )),
        next is Err ==> begins(next->Err_0->Cleanup_0@, "git worktree remove "@),
        next is Ok && last is Err ==> begins(last->Err_0->Cleanup_0@, "git branch -D "@),
        next is Ok ==> {
            &&& views(more@) == seq!["branch"@, "-D"@, branch@]
            &&& last == Ok::<Option<CleanupStep>, PlanRunPhaseError>(None) <==> ended_well(again)
            &&& last is Err <==> !ended_well(again)
            &&& last matches Err(error) ==> (error matches PlanRunPhaseError::Cleanup(text)
                && tells_of(text@, again))
        },
{
    reveal_strlit("git worktree remove ");
    reveal_strlit("git worktree remove failed to spawn: ");
    reveal_strlit("git worktree remove --force ");
    reveal_strlit("git branch -D ");
    reveal_strlit("git branch -D failed to spawn: ");
    assert("git worktree remove failed to spawn: "@.take(20) =~= "git worktree remove "@);
    assert("git worktree remove --force "@.take(20) =~= "git worktree remove "@);
    assert("git branch -D failed to spawn: "@.take(14) =~= "git branch -D "@);
    assert("git branch -D "@.take(14) =~= "git branch -D "@);
    if next is Err {
        let text = next->Err_0->Cleanup_0@;
        assert(text.take(20) =~= "git worktree remove "@);
    }
    if next is Ok && last is Err {
        let text = last->Err_0->Cleanup_0@;
        assert(text.take(14) =~= "git branch -D "@);
    }
    lemma_cleanup_report("git worktree remove failed to spawn: "@, "git worktree remove --force "@
        + worktree@ + ": "@, run);
    lemma_cleanup_report("git branch -D failed to spawn: "@, "git branch -D "@ + branch@ + ": "@,
        again);
}

proof fn lemma_cleanup_report(spawn: Seq<char>, label: Seq<char>, run: CommandRun)
    ensures
        match run {
            CommandRun::NotStarted { error } => tells_of(spawn + error@, run),
            CommandRun::Ended { success, status, stdout, stderr } => tells_of(
                label + crate::command::exit_text(status@, stderr@),
                run,
            ),
        },
{
    match run {
        CommandRun::NotStarted { error } => {
            lemma_middle(spawn, error@, seq![]);
        },
        CommandRun::Ended { success, status, stdout, stderr } => {
            let exit = crate::command::exit_text(status@, stderr@);
            lemma_exit_text(status@, stderr@, exit);
            lemma_contains_more(label, exit, seq![], status@);
            lemma_ends_with_more(label, exit, trim(stderr@));
        },
    }
}

/// Behind an accepted assignment Worktrunk removes the worktree of the branch, and git
/// deletes the branch only where that ended well. That the branch stays is no failure.
pub proof fn law_accepted_cleanup(
    worktrunk: &str,
    branch: &str,
    step: AcceptedCleanup,
    program: String,
    args: Vec<String>,
    run: CommandRun,
    next: Result<Option<AcceptedCleanup>, String>,
)
    requires
        call_ensures(AcceptedCleanup::program, (step, worktrunk), program),
        call_ensures(AcceptedCleanup::args, (step, branch), args),
        call_ensures(cleanup_assignment_worktree, (step, &run), next),
    ensures
        step == AcceptedCleanup::RemoveWorktree ==> {
            &&& program@ == worktrunk@
            &&& views(args@) == seq!["remove"@, branch@, "--yes"@]
            &&& next == Ok::<Option<AcceptedCleanup>, String>(Some(AcceptedCleanup::DeleteBranch))
                <==> ended_well(run)
            &&& next is Err <==> !ended_well(run)
            &&& next matches Err(text) ==> tells_of(text@, run)
        },
        step == AcceptedCleanup::DeleteBranch ==> {
            &&& program@ == "git"@
            &&& views(args@) == seq!["branch"@, "-D"@, branch@]
            &&& next == Ok::<Option<AcceptedCleanup>, String>(None)
        },
{
    match run {
        CommandRun::NotStarted { error } => {
            lemma_middle("failed to remove Assignment Worktree: "@, error@, seq![]);
        },
        CommandRun::Ended { success, status, stdout, stderr } => {
            let begin = "Worktrunk worktree removal exited with "@;
            let end = ": "@ + trim(stderr@);
            lemma_middle(begin, status@, end);
            lemma_middle(begin + status@, ": "@, trim(stderr@));
            assert(begin + status@ + end =~= begin + status@ + ": "@ + trim(stderr@));
        },
    }
}

/// An abandoned assignment has its worktree and its branch removed by force and without a
/// question. This fails if and only if Worktrunk did.
pub proof fn law_abandoned_worktree_is_removed(
    branch: &str,
    args: Vec<String>,
    run: CommandRun,
    result: Result<(), String>,
)
    requires
        call_ensures(removal_args, (branch,), args),
        call_ensures(remove_assignment_worktree, (&run,), result),
    ensures
        views(args@) == seq!["remove"@, "--branch"@, branch@, "--yes"@, "--force"@],
        result is Ok <==> ended_well(run),
        result matches Err(text) ==> tells_of(text@, run),
{
    match run {
        CommandRun::NotStarted { error } => {
            lemma_middle("failed to start Worktrunk cleanup: "@, error@, seq![]);
        },
        CommandRun::Ended { success, status, stdout, stderr } => {
            lemma_labelled("Worktrunk assignment worktree removal"@, status@, stderr@);
        },
    }
}

pub proof fn lemma_labelled(label: Seq<char>, status: Seq<char>, stderr: Seq<char>)
    ensures
        contains_text(crate::command::labelled_failure(label, status, stderr), status),
        ends_with(crate::command::labelled_failure(label, status, stderr), trim(stderr)),
{
    let text = crate::command::labelled_failure(label, status, stderr);
    let said = label + " exited with "@;
    lemma_middle(said, status, ": "@ + trim(stderr));
    if trim(stderr).len() == 0 {
        lemma_middle(said, status, seq![]);
        lemma_ends_with_nothing(text, trim(stderr));
    } else {
        assert(text =~= said + status + (": "@ + trim(stderr)));
        lemma_middle(said + status, ": "@, trim(stderr));
    }
}

} // verus!
