//! The text that tells the author that a pull request's pipeline has finished.

use vstd::prelude::*;
use vstd::string::*;
use crate::pulls::{PullRequestStatus, StatusView};
use crate::status::GitlabStatus;
use crate::text::{decimal, decimal_chars};

verus! {

/// The word for how a pipeline ended. An unfinished state has a word too, so that every
/// status has a message, but no message is ever sent for one.
pub open spec fn outcome_chars(state: GitlabStatus) -> Seq<char> {
    match state {
        GitlabStatus::Success => "succeeded!"@,
        GitlabStatus::Failure => "failed!"@,
        _ => "uhhh"@,
    }
}

/// The message for `status`: its number, how the pipeline ended, and the pull request's link.
pub open spec fn message_chars(status: StatusView) -> Seq<char> {
    "PR #"@ + decimal_chars(status.number) + " "@ + outcome_chars(status.state) + " PR Link: "@
        + status.github_url
}

/// The word for how a pipeline ended.
pub fn outcome_word(state: &GitlabStatus) -> (word: &'static str)
    ensures
        word@ == outcome_chars(*state),
{
    match state {
        GitlabStatus::Success => "succeeded!",
        GitlabStatus::Failure => "failed!",
        _ => "uhhh",
    }
}

/// Writes the message that announces `status`.
pub fn finish_message(status: &PullRequestStatus) -> (message: String)
    ensures
        message@ == message_chars(status@),
{
    let mut message = String::from_str("PR #");
    message.append(decimal(status.number).as_str());
    message.append(" ");
    message.append(outcome_word(&status.state));
    message.append(" PR Link: ");
    message.append(status.github_url.as_str());
    message
}

} // verus!
