//! What running an outside program gave.

use vstd::prelude::*;

use crate::text::{concat, trimmed};
#[allow(unused_imports)]
use crate::text::trim;

verus! {

/// What became of a program that was run to its end.
#[derive(Clone, Debug, Eq, PartialEq)]
pub enum CommandRun {
    /// The program could not be started.
    NotStarted { error: String },
    /// The program ended. `status` is the text of its exit status.
    Ended { success: bool, status: String, stdout: String, stderr: String },
}

/// What became of a program whose output is not known to be text.
#[derive(Clone, Debug, Eq, PartialEq)]
pub enum RawRun {
    /// The program could not be started.
    NotStarted { error: String },
    /// The program ended. `status` is the text of its exit status.
    Ended { success: bool, status: String, stdout: Vec<u8>, stderr: String },
}

/// `label`, how the program ended, and its errors where there are any.
pub open spec fn labelled_failure(
    label: Seq<char>,
    status: Seq<char>,
    stderr: Seq<char>,
) -> Seq<char> {
    if trim(stderr).len() == 0 {
        label + " exited with "@ + status
    } else {
        label + " exited with "@ + status + ": "@ + trim(stderr)
    }
}

/// `label`, how the program ended, and its errors where there are any.
pub fn command_failure(label: &str, status: &str, stderr: &str) -> (text: String)
    ensures
        text@ == labelled_failure(label@, status@, stderr@),
{
    let errors = trimmed(stderr);
    let mut text = concat(label, " exited with ");
    text.append(status);
    if !errors.as_str().is_empty() {
        text.append(": ");
        text.append(errors.as_str());
    }
    text
}

/// What a program said about its failure: its errors, else what it printed, else
/// `fallback` and its exit status.
pub open spec fn said(fallback: Seq<char>, status: Seq<char>, stdout: Seq<char>, stderr: Seq<char>) -> Seq<
    char,
> {
    if trim(stderr).len() > 0 {
        trim(stderr)
    } else if trim(stdout).len() > 0 {
        trim(stdout)
    } else {
        fallback + status
    }
}

/// What a program said about its failure.
pub fn failure_text(fallback: &str, status: &str, stdout: &str, stderr: &str) -> (text: String)
    ensures
        text@ == said(fallback@, status@, stdout@, stderr@),
{
    let errors = trimmed(stderr);
    if !errors.as_str().is_empty() {
        return errors;
    }
    let printed = trimmed(stdout);
    if printed.as_str().is_empty() {
        concat(fallback, status)
    } else {
        printed
    }
}

/// The text of an exit status, and of the errors where there are any.
pub open spec fn exit_text(status: Seq<char>, stderr: Seq<char>) -> Seq<char> {
    if trim(stderr).len() == 0 {
        "exit status "@ + status
    } else {
        "exit status "@ + status + ": "@ + trim(stderr)
    }
}

/// The text of an exit status, and of the errors where there are any.
pub fn describe_exit(status: &str, stderr: &str) -> (text: String)
    ensures
        text@ == exit_text(status@, stderr@),
{
    let errors = trimmed(stderr);
    let mut text = concat("exit status ", status);
    if !errors.as_str().is_empty() {
        text.append(": ");
        text.append(errors.as_str());
    }
    text
}

} // verus!
