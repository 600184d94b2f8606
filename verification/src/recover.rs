//! Recovering a blocked assignment with a new run of Codex.

use vstd::prelude::*;

use crate::numerals::decimal_u64;
#[allow(unused_imports)]
use crate::numerals::decimal;
use crate::text::same_text;
#[allow(unused_imports)]
use crate::text::{contains_text, matches_at, views};

verus! {

/// The stored facts that a recovery prompt is made of.
#[derive(Clone, Debug, Eq, PartialEq)]
pub struct RecoveryPromptFacts<'a> {
    pub source_issue_raw_text: &'a str,
    pub source_id: &'a str,
    pub assignment_branch: &'a str,
    pub assignment_worktree_path: &'a str,
    pub prior_process_identity: Option<&'a str>,
    pub prior_block_reason: Option<&'a str>,
}

/// A line that is there only where its fact is.
pub open spec fn optional_line(label: Seq<char>, fact: Option<&str>) -> Seq<char> {
    match fact {
        Some(fact) => label + fact@ + "\n"@,
        None => ""@,
    }
}

/// The recovery prompt.
pub open spec fn recovery_prompt(facts: RecoveryPromptFacts<'_>) -> Seq<char> {
    "This is a recovery Assignment Attempt: a prior Codex process was blocked while implementing this Issue Assignment. Continue the work in the existing Assignment Worktree. Do not restart from a clean checkout.\n\n"@
        + "Source Issue: "@ + facts.source_id@ + "\n"@ + "Assignment Worktree: "@
        + facts.assignment_worktree_path@ + "\n"@ + "Assignment Branch: "@
        + facts.assignment_branch@ + "\n"@ + optional_line(
        "Prior Codex process identity (now stopped): "@,
        facts.prior_process_identity,
    ) + optional_line("Prior block reason: "@, facts.prior_block_reason)
        + "\n--- Source Issue (verbatim) ---\n"@ + facts.source_issue_raw_text@
}

fn push_optional(prompt: &mut String, label: &str, fact: Option<&str>)
    ensures
        final(prompt)@ == old(prompt)@ + optional_line(label@, fact),
{
    let ghost before = prompt@;
    match fact {
        Some(fact) => {
            prompt.append(label);
            prompt.append(fact);
            prompt.append("\n");
            assert(prompt@ =~= before + (label@ + fact@ + "\n"@));
        },
        None => {
            proof {
                reveal_strlit("");
            }
            assert(prompt@ =~= before + ""@);
        },
    }
}

/// The recovery prompt: stored facts alone, and the Source Issue as it was.
pub fn build_recovery_prompt(facts: RecoveryPromptFacts<'_>) -> (prompt: String)
    ensures
        prompt@ == recovery_prompt(facts),
{
    let mut prompt =
        "This is a recovery Assignment Attempt: a prior Codex process was blocked while implementing this Issue Assignment. Continue the work in the existing Assignment Worktree. Do not restart from a clean checkout.\n\n".to_owned();
    prompt.append("Source Issue: ");
    prompt.append(facts.source_id);
    prompt.append("\n");
    prompt.append("Assignment Worktree: ");
    prompt.append(facts.assignment_worktree_path);
    prompt.append("\n");
    prompt.append("Assignment Branch: ");
    prompt.append(facts.assignment_branch);
    prompt.append("\n");
    push_optional(
        &mut prompt,
        "Prior Codex process identity (now stopped): ",
        facts.prior_process_identity,
    );
    push_optional(&mut prompt, "Prior block reason: ", facts.prior_block_reason);
    prompt.append("\n--- Source Issue (verbatim) ---\n");
    prompt.append(facts.source_issue_raw_text);
    prompt
}

/// The recovery prompt ends in the Source Issue, word for word.
pub proof fn law_recovery_prompt_keeps_issue(facts: RecoveryPromptFacts<'_>)
    ensures
        recovery_prompt(facts).skip(
            recovery_prompt(facts).len() - facts.source_issue_raw_text@.len(),
        ) == facts.source_issue_raw_text@,
{
    let whole = recovery_prompt(facts);
    let issue = facts.source_issue_raw_text@;
    assert(whole.skip(whole.len() - issue.len()) =~= issue);
}

/// What became of the process of the blocked run.
#[derive(Clone, Copy, Debug, Eq, PartialEq, Structural)]
pub enum PriorProcessOutcome {
    /// No process was recorded.
    NoPriorRecord,
    /// The process has ended.
    AlreadyStopped,
    /// The process was running, and is told to stop.
    Stopped,
    /// The process could not be told from another one, and is left alone.
    UnverifiableLeftRunning,
}

/// What becomes of the recorded process, given the identity of the process that
/// now has its number. Only the very process that was recorded is stopped.
pub open spec fn prior_outcome(expected: Seq<char>, current: Option<String>) -> PriorProcessOutcome {
    match current {
        Some(current) => if current@ == expected {
            PriorProcessOutcome::Stopped
        } else {
            PriorProcessOutcome::AlreadyStopped
        },
        None => PriorProcessOutcome::AlreadyStopped,
    }
}

/// What becomes of the recorded process.
pub fn judge_prior_process(expected: &str, current: &Option<String>) -> (outcome:
    PriorProcessOutcome)
    ensures
        outcome == prior_outcome(expected@, *current),
{
    match current {
        Some(current) => {
            if same_text(current.as_str(), expected) {
                PriorProcessOutcome::Stopped
            } else {
                PriorProcessOutcome::AlreadyStopped
            }
        },
        None => PriorProcessOutcome::AlreadyStopped,
    }
}

/// Find out whether the recorded process is to be stopped. `process_identity_lookup`
/// gives the identity of the process that has a number now. Where the outcome is
/// [`PriorProcessOutcome::Stopped`] the caller signals it.
pub fn stop_prior_codex_if_owned<F: Fn(u32) -> Option<String>>(
    prior_process_id: Option<u32>,
    prior_process_identity: Option<&str>,
    process_identity_lookup: F,
) -> (outcome: PriorProcessOutcome)
    requires
        prior_process_id matches Some(pid) ==> call_requires(process_identity_lookup, (pid,)),
    ensures
        match (prior_process_id, prior_process_identity) {
            (Some(pid), Some(expected)) => exists|current: Option<String>|
                #[trigger] call_ensures(process_identity_lookup, (pid,), current) && outcome
                    == prior_outcome(expected@, current),
            _ => outcome == PriorProcessOutcome::NoPriorRecord,
        },
{
    match (prior_process_id, prior_process_identity) {
        (Some(pid), Some(expected)) => {
            let current = process_identity_lookup(pid);
            judge_prior_process(expected, &current)
        },
        _ => PriorProcessOutcome::NoPriorRecord,
    }
}

/// The arguments of `kill` that stop the process.
pub fn stop_args(pid: u32) -> (args: Vec<String>)
    ensures
        views(args@) == seq![decimal(pid as nat)],
{
    let mut args: Vec<String> = Vec::new();
    args.push(decimal_u64(pid as u64));
    assert(views(args@) =~= seq![decimal(pid as nat)]);
    args
}

} // verus!
