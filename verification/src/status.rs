//! The canonical pipeline states and the rule that tells finished from unfinished.

use vstd::prelude::*;
use crate::text::same_text;

verus! {

/// What a pipeline run is reduced to, whatever text the provider reported.
#[derive(Clone, Copy, Debug, PartialEq, Eq, Structural)]
pub enum GitlabStatus {
    Pending,
    Running,
    Success,
    Failure,
    Invalid,
}

/// A run is finished exactly when it succeeded or failed.
pub open spec fn done(state: GitlabStatus) -> bool {
    state == GitlabStatus::Success || state == GitlabStatus::Failure
}

/// Tells whether `state` is a finished state.
pub fn is_done(state: &GitlabStatus) -> (finished: bool)
    ensures
        finished == done(*state),
{
    match state {
        GitlabStatus::Success | GitlabStatus::Failure => true,
        _ => false,
    }
}

/// The state that a provider's status text stands for. Text that is none of the four known
/// words stands for [`GitlabStatus::Invalid`].
pub open spec fn classified(text: Seq<char>) -> GitlabStatus {
    if text == "success"@ {
        GitlabStatus::Success
    } else if text == "failure"@ {
        GitlabStatus::Failure
    } else if text == "pending"@ {
        GitlabStatus::Pending
    } else if text == "running"@ {
        GitlabStatus::Running
    } else {
        GitlabStatus::Invalid
    }
}

/// Reduces a provider's status text to a canonical state. Unknown text is no error.
pub fn classify(text: &str) -> (state: GitlabStatus)
    ensures
        state == classified(text@),
{
    if same_text(text, "success") {
        GitlabStatus::Success
    } else if same_text(text, "failure") {
        GitlabStatus::Failure
    } else if same_text(text, "pending") {
        GitlabStatus::Pending
    } else if same_text(text, "running") {
        GitlabStatus::Running
    } else {
        GitlabStatus::Invalid
    }
}

} // verus!
