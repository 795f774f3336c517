//! Whose pull requests to watch, in which repository, and what a request to the provider
//! carries.

use vstd::prelude::*;
use vstd::string::*;

verus! {

/// The settings of one run. They are read once and never change.
#[derive(Clone, Debug, PartialEq, Eq)]
pub struct Config {
    pub github_username: String,
    pub access_token: String,
    pub repo: String,
}

/// The model of a [`Config`].
pub struct ConfigView {
    pub github_username: Seq<char>,
    pub access_token: Seq<char>,
    pub repo: Seq<char>,
}

impl View for Config {
    type V = ConfigView;

    open spec fn view(&self) -> ConfigView {
        ConfigView {
            github_username: self.github_username@,
            access_token: self.access_token@,
            repo: self.repo@,
        }
    }
}

/// What every request names as its user agent.
pub const USER_AGENT: &'static str = "Mark's Cool PR Checker";

/// The address that lists the pull requests of the repository `repo`.
pub open spec fn pulls_url_chars(repo: Seq<char>) -> Seq<char> {
    "https://api.github.com/repos/"@ + repo + "/pulls"@
}

/// The authorization that a request carries for the access token `token`.
pub open spec fn authorization_chars(token: Seq<char>) -> Seq<char> {
    "Bearer "@ + token
}

impl Config {
    /// The address that lists the pull requests of the configured repository.
    pub fn pulls_url(&self) -> (url: String)
        ensures
            url@ == pulls_url_chars(self@.repo),
    {
        let mut url = String::from_str("https://api.github.com/repos/");
        url.append(self.repo.as_str());
        url.append("/pulls");
        url
    }

    /// The authorization that every request carries.
    pub fn authorization(&self) -> (value: String)
        ensures
            value@ == authorization_chars(self@.access_token),
    {
        let mut value = String::from_str("Bearer ");
        value.append(self.access_token.as_str());
        value
    }
}

} // verus!
