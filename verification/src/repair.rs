//! Repairing the failed checks of a Change Proposal.

use vstd::prelude::*;

use crate::contracts::FailedCheckFact;
use crate::text::trimmed_end_char;
#[allow(unused_imports)]
use crate::text::trim_end_char;

verus! {

/// The facts that a repair prompt is made of.
#[derive(Clone, Debug, Eq, PartialEq)]
pub struct RepairPromptFacts<'a> {
    pub source_id: &'a str,
    pub source_title: &'a str,
    pub source_raw_text: &'a str,
    pub change_proposal_url: &'a str,
    pub branch: &'a str,
    pub failed_checks: &'a [FailedCheckFact],
    pub verified_worktree_facts: Option<&'a str>,
}

/// The line of a failed check.
pub open spec fn check_line(failed: FailedCheckFact) -> Seq<char> {
    "- "@ + failed.name@ + (match failed.url {
        Some(url) => " ("@ + url@ + ")"@,
        None => ""@,
    }) + (match failed.summary {
        Some(summary) => ": "@ + summary@,
        None => ""@,
    }) + "\n"@
}

/// The lines of the failed checks.
pub open spec fn check_lines(failed: Seq<FailedCheckFact>) -> Seq<char>
    decreases failed.len(),
{
    if failed.len() == 0 {
        seq![]
    } else {
        check_lines(failed.drop_last()) + check_line(failed.last())
    }
}

/// The repair prompt.
pub open spec fn repair_prompt(facts: RepairPromptFacts<'_>) -> Seq<char> {
    "Repair this Change Proposal's failed required checks inside the existing Assignment Worktree.\n"@
        + "Do not start fresh; keep prior assignment work and only address the failed checks.\n\n"@
        + "Source Issue: "@ + facts.source_id@ + " "@ + facts.source_title@ + "\n"@
        + "Change Proposal: "@ + facts.change_proposal_url@ + "\nAssignment branch: "@
        + facts.branch@ + "\n\n"@ + (match facts.verified_worktree_facts {
        Some(verified) => "Verified worktree facts:\n"@ + trim_end_char(verified@, '\n')
            + "\n\n"@,
        None => ""@,
    }) + "Failed required checks:\n"@ + (if facts.failed_checks@.len() == 0 {
        "- (none reported)\n"@
    } else {
        check_lines(facts.failed_checks@)
    }) + "\nOriginal Source Issue brief:\n"@ + trim_end_char(facts.source_raw_text@, '\n')
        + "\n"@
}

fn push_check(prompt: &mut String, failed: &FailedCheckFact)
    ensures
        final(prompt)@ == old(prompt)@ + check_line(*failed),
{
    let ghost before = prompt@;
    proof {
        reveal_strlit("");
    }
    prompt.append("- ");
    prompt.append(failed.name.as_str());
    match &failed.url {
        Some(url) => {
            prompt.append(" (");
            prompt.append(url.as_str());
            prompt.append(")");
        },
        None => {},
    }
    match &failed.summary {
        Some(summary) => {
            prompt.append(": ");
            prompt.append(summary.as_str());
        },
        None => {},
    }
    prompt.append("\n");
    assert(prompt@ =~= before + check_line(*failed));
}

/// The repair prompt.
pub fn build_repair_prompt(facts: &RepairPromptFacts<'_>) -> (prompt: String)
    ensures
        prompt@ == repair_prompt(*facts),
{
    proof {
        reveal_strlit("");
    }
    let mut prompt =
        "Repair this Change Proposal's failed required checks inside the existing Assignment Worktree.\n".to_owned();
    prompt.append(
        "Do not start fresh; keep prior assignment work and only address the failed checks.\n\n",
    );
    prompt.append("Source Issue: ");
    prompt.append(facts.source_id);
    prompt.append(" ");
    prompt.append(facts.source_title);
    prompt.append("\n");
    prompt.append("Change Proposal: ");
    prompt.append(facts.change_proposal_url);
    prompt.append("\nAssignment branch: ");
    prompt.append(facts.branch);
    prompt.append("\n\n");
    let ghost head = prompt@;
    match facts.verified_worktree_facts {
        Some(verified) => {
            prompt.append("Verified worktree facts:\n");
            prompt.append(trimmed_end_char(verified, '\n').as_str());
            prompt.append("\n\n");
        },
        None => {},
    }
    assert(prompt@ =~= head + (match facts.verified_worktree_facts {
        Some(verified) => "Verified worktree facts:\n"@ + trim_end_char(verified@, '\n')
            + "\n\n"@,
        None => ""@,
    }));
    prompt.append("Failed required checks:\n");
    let ghost before = prompt@;
    let checks = facts.failed_checks;
    if checks.len() == 0 {
        prompt.append("- (none reported)\n");
    } else {
        let mut i: usize = 0;
        assert(before + check_lines(checks@.take(0)) =~= before);
        while i < checks.len()
            invariant
                i <= checks.len(),
                prompt@ == before + check_lines(checks@.take(i as int)),
            decreases checks.len() - i,
        {
            push_check(&mut prompt, &checks[i]);
            proof {
                assert(checks@.take(i + 1).drop_last() =~= checks@.take(i as int));
                assert(prompt@ =~= before + check_lines(checks@.take(i + 1)));
            }
            i += 1;
        }
        assert(checks@.take(i as int) =~= checks@);
    }
    prompt.append("\nOriginal Source Issue brief:\n");
    prompt.append(trimmed_end_char(facts.source_raw_text, '\n').as_str());
    prompt.append("\n");
    prompt
}

} // verus!
