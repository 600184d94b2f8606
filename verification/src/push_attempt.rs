//! What one push of the Integration Branch came to.
//!
//! `git push` has no exit code for a diverged branch, so the text of the error
//! decides.

use vstd::prelude::*;

use crate::plan_run::PlanRunPhaseError;
use crate::text::{contains, to_lower};
#[allow(unused_imports)]
use crate::text::{ascii_lower, contains_text};

verus! {

/// What one push of the Integration Branch came to.
#[derive(Clone, Debug, Eq, PartialEq)]
pub enum PushOutcome {
    /// The remote took the push.
    Success,
    /// The remote rejected the push because the branch has diverged.
    NonFastForward { detail: String },
    /// Any other failure.
    Other { detail: String },
}

impl PushOutcome {
    /// The stored form of the outcome.
    pub fn outcome_str(&self) -> (text: &'static str)
        ensures
            text@ == if self is Success {
                "succeeded"@
            } else {
                "failed"@
            },
    {
        match self {
            PushOutcome::Success => "succeeded",
            PushOutcome::NonFastForward { .. } => "failed",
            PushOutcome::Other { .. } => "failed",
        }
    }

    /// Whether the remote took the push as a fast-forward update.
    pub fn fast_forward(&self) -> (yes: bool)
        ensures
            yes == (self is Success),
    {
        matches!(self, PushOutcome::Success)
    }
}

/// The error text of a push reports a diverged branch: in lower case, it holds
/// one of the phrases that `git push` and the remote use.
pub open spec fn reports_divergence(text: Seq<char>) -> bool {
    let lower = ascii_lower(text);
    ||| contains_text(lower, "non-fast-forward"@)
    ||| contains_text(lower, "non fast forward"@)
    ||| contains_text(lower, "fetch first"@)
    ||| contains_text(lower, "would not be a fast-forward"@)
    ||| contains_text(lower, "would not be a fast forward"@)
    ||| contains_text(lower, "updates were rejected"@)
    ||| contains_text(lower, "tip of your current branch is behind"@)
}

/// Whether the error text of a push reports a diverged branch.
pub fn is_non_fast_forward_stderr(stderr: &str) -> (yes: bool)
    ensures
        yes == reports_divergence(stderr@),
{
    let lowered = to_lower(stderr);
    let lower = lowered.as_str();
    contains(lower, "non-fast-forward") || contains(lower, "non fast forward") || contains(
        lower,
        "fetch first",
    ) || contains(lower, "would not be a fast-forward") || contains(
        lower,
        "would not be a fast forward",
    ) || contains(lower, "updates were rejected") || contains(
        lower,
        "tip of your current branch is behind",
    )
}

/// `outcome` is what a failed push with this error text came to.
pub open spec fn is_failure_outcome(outcome: PushOutcome, detail: Seq<char>) -> bool {
    if reports_divergence(detail) {
        outcome matches PushOutcome::NonFastForward { detail: kept } && kept@ == detail
    } else {
        outcome matches PushOutcome::Other { detail: kept } && kept@ == detail
    }
}

/// What a failed push with this error text came to.
pub fn classify_failure_detail(detail: String) -> (outcome: PushOutcome)
    ensures
        is_failure_outcome(outcome, detail@),
{
    if is_non_fast_forward_stderr(detail.as_str()) {
        PushOutcome::NonFastForward { detail }
    } else {
        PushOutcome::Other { detail }
    }
}

/// `outcome` is what a push with this result came to.
pub open spec fn is_push_outcome(
    outcome: PushOutcome,
    result: Result<(), PlanRunPhaseError>,
) -> bool {
    match result {
        Ok(()) => outcome is Success,
        Err(PlanRunPhaseError::NonFastForward { stderr }) => outcome
            matches PushOutcome::NonFastForward { detail } && detail@ == stderr@,
        Err(PlanRunPhaseError::IntegrationPush(detail)) => is_failure_outcome(outcome, detail@),
        Err(other) => outcome matches PushOutcome::Other { detail } && detail@ == other.text(),
    }
}

/// What a push with this result came to.
pub fn classify_push_result(result: Result<(), PlanRunPhaseError>) -> (outcome: PushOutcome)
    ensures
        is_push_outcome(outcome, result),
{
    match result {
        Ok(()) => PushOutcome::Success,
        Err(PlanRunPhaseError::NonFastForward { stderr }) => PushOutcome::NonFastForward {
            detail: stderr,
        },
        Err(PlanRunPhaseError::IntegrationPush(detail)) => classify_failure_detail(detail),
        Err(other) => PushOutcome::Other { detail: other.message() },
    }
}

/// Only a push that the remote took is a success. A push that was reported as
/// diverged is classified so, and of any other failed push the text decides; where
/// it does not report a divergence, it is kept.
pub proof fn law_push_classification_is_total(outcome: PushOutcome, result: Result<
    (),
    PlanRunPhaseError,
>)
    requires
        is_push_outcome(outcome, result),
    ensures
        outcome is Success <==> result is Ok,
        result matches Err(PlanRunPhaseError::NonFastForward { .. }) ==> outcome is NonFastForward,
        result matches Err(PlanRunPhaseError::IntegrationPush(detail)) ==> (outcome
            is NonFastForward <==> reports_divergence(detail@)),
        result matches Err(PlanRunPhaseError::IntegrationPush(detail)) ==> (
        outcome matches PushOutcome::Other { detail: kept } ==> kept@ == detail@),
{
}

} // verus!
