//! Pull requests and their status entries as the hosting provider reports them, and the
//! reduction of what was fetched to one pipeline status per pull request.

use vstd::prelude::*;
use vstd::string::*;
use crate::status::{classified, classify, GitlabStatus};
use crate::text::same_text;

verus! {

/// The account that opened a pull request.
#[derive(Clone, Debug, PartialEq, Eq)]
pub struct User {
    pub login: String,
}

/// The commit at the tip of a pull request.
#[derive(Clone, Debug, PartialEq, Eq)]
pub struct Head {
    pub sha: String,
}

/// A pull request as the provider lists it.
#[derive(Clone, Debug, PartialEq, Eq)]
pub struct ApiPullRequest {
    pub url: String,
    pub html_url: String,
    pub number: i32,
    pub state: String,
    pub user: User,
    pub statuses_url: String,
    pub head: Head,
}

/// One status entry of a pull request as the provider lists it.
#[derive(Clone, Debug, PartialEq, Eq)]
pub struct ApiPullRequestStatus {
    pub state: String,
    pub description: String,
    pub context: String,
    pub target_url: String,
}

/// The last observed pipeline status of one pull request.
#[derive(Clone, Debug, PartialEq, Eq)]
pub struct PullRequestStatus {
    pub number: i32,
    pub state: GitlabStatus,
    pub github_url: String,
    pub pipeline_url: String,
}

/// A pull request together with the status entries listed for it, newest first.
#[derive(Clone, Debug, PartialEq, Eq)]
pub struct PullStatuses {
    pub pull: ApiPullRequest,
    pub statuses: Vec<ApiPullRequestStatus>,
}

/// The model of an [`ApiPullRequest`].
pub struct PullView {
    pub url: Seq<char>,
    pub html_url: Seq<char>,
    pub number: int,
    pub state: Seq<char>,
    pub author: Seq<char>,
    pub statuses_url: Seq<char>,
    pub head_sha: Seq<char>,
}

/// The model of an [`ApiPullRequestStatus`].
pub struct RawStatus {
    pub state: Seq<char>,
    pub description: Seq<char>,
    pub context: Seq<char>,
    pub target_url: Seq<char>,
}

/// The model of a [`PullRequestStatus`].
pub struct StatusView {
    pub number: int,
    pub state: GitlabStatus,
    pub github_url: Seq<char>,
    pub pipeline_url: Seq<char>,
}

/// The model of a [`PullStatuses`].
pub struct FetchedView {
    pub pull: PullView,
    pub statuses: Seq<RawStatus>,
}

impl View for ApiPullRequest {
    type V = PullView;

    open spec fn view(&self) -> PullView {
        PullView {
            url: self.url@,
            html_url: self.html_url@,
            number: self.number as int,
            state: self.state@,
            author: self.user.login@,
            statuses_url: self.statuses_url@,
            head_sha: self.head.sha@,
        }
    }
}

impl DeepView for ApiPullRequest {
    type V = PullView;

    open spec fn deep_view(&self) -> PullView {
        self@
    }
}

impl View for ApiPullRequestStatus {
    type V = RawStatus;

    open spec fn view(&self) -> RawStatus {
        RawStatus {
            state: self.state@,
            description: self.description@,
            context: self.context@,
            target_url: self.target_url@,
        }
    }
}

impl DeepView for ApiPullRequestStatus {
    type V = RawStatus;

    open spec fn deep_view(&self) -> RawStatus {
        self@
    }
}

impl View for PullRequestStatus {
    type V = StatusView;

    open spec fn view(&self) -> StatusView {
        StatusView {
            number: self.number as int,
            state: self.state,
            github_url: self.github_url@,
            pipeline_url: self.pipeline_url@,
        }
    }
}

impl DeepView for PullRequestStatus {
    type V = StatusView;

    open spec fn deep_view(&self) -> StatusView {
        self@
    }
}

impl View for PullStatuses {
    type V = FetchedView;

    open spec fn view(&self) -> FetchedView {
        FetchedView { pull: self.pull@, statuses: self.statuses.deep_view() }
    }
}

impl DeepView for PullStatuses {
    type V = FetchedView;

    open spec fn deep_view(&self) -> FetchedView {
        self@
    }
}

/// The context under which the pipeline reports its status entries.
pub const CI_CONTEXT: &'static str = "ci/gitlab/gitlab.com";

/// The first entry of `statuses` that was reported under `context`, if there is one.
pub open spec fn first_under(statuses: Seq<RawStatus>, context: Seq<char>) -> Option<RawStatus>
    decreases statuses.len(),
{
    if statuses.len() == 0 {
        None
    } else if statuses.first().context == context {
        Some(statuses.first())
    } else {
        first_under(statuses.drop_first(), context)
    }
}

/// What is recorded for `pull` when `entry` is its pipeline's newest status entry.
pub open spec fn recorded(pull: PullView, entry: RawStatus) -> StatusView {
    StatusView {
        number: pull.number,
        state: classified(entry.state),
        github_url: pull.html_url,
        pipeline_url: entry.target_url,
    }
}

/// The pipeline status of `pull`, given the entries listed for it: that of the first entry
/// under [`CI_CONTEXT`], and none where no entry is under it.
pub open spec fn status_of(pull: PullView, statuses: Seq<RawStatus>) -> Option<StatusView> {
    match first_under(statuses, CI_CONTEXT@) {
        Some(entry) => Some(recorded(pull, entry)),
        None => None,
    }
}

/// The pipeline status of one fetched pull request.
pub open spec fn fetched_status(fetched: FetchedView) -> Option<StatusView> {
    status_of(fetched.pull, fetched.statuses)
}

/// The pipeline statuses of the pull requests that have one, in the order of `fetched`.
pub open spec fn collected(fetched: Seq<FetchedView>) -> Seq<StatusView> {
    fetched.filter_map(|f: FetchedView| fetched_status(f))
}

/// The pull requests of `pulls` that `username` opened, in the same order.
pub open spec fn authored(pulls: Seq<PullView>, username: Seq<char>) -> Seq<PullView> {
    pulls.filter(|pull: PullView| pull.author == username)
}

/// Keeps the pull requests that `username` opened, in the order in which they were listed.
pub fn authored_by(pulls: Vec<ApiPullRequest>, username: &str) -> (mine: Vec<ApiPullRequest>)
    ensures
        mine.deep_view() == authored(pulls.deep_view(), username@),
{
    let ghost all = pulls.deep_view();
    let ghost by_user = |pull: PullView| pull.author == username@;
    let mut mine: Vec<ApiPullRequest> = Vec::new();
    assert(all.take(0).filter(by_user) =~= Seq::<PullView>::empty()) by {
        reveal(Seq::filter);
    }
    for pull in it: pulls
        invariant
            all == pulls.deep_view(),
            it.seq() == pulls@,
            by_user == |pull: PullView| pull.author == username@,
            mine.deep_view() == all.take(it.index() as int).filter(by_user),
    {
        let ghost kept = mine.deep_view();
        proof {
            assert(all.take(it.index() + 1) =~= all.take(it.index() as int).push(pull@));
            all.take(it.index() as int).lemma_filter_push(pull@, by_user);
        }
        if same_text(pull.user.login.as_str(), username) {
            mine.push(pull);
            assert(mine.deep_view() =~= kept.push(pull@));
        }
    }
    assert(all.take(all.len() as int) =~= all);
    mine
}

/// Finds the pipeline status of `pull` among the status entries listed for it.
///
/// Only the first entry under [`CI_CONTEXT`] counts; the entries after it are not read.
pub fn gitlab_status(pull: &ApiPullRequest, statuses: &Vec<ApiPullRequestStatus>) -> (found: Option<
    PullRequestStatus,
>)
    ensures
        found.deep_view() == status_of(pull@, statuses.deep_view()),
{
    let ghost all = statuses.deep_view();
    let mut i: usize = 0;
    assert(all.skip(0) =~= all);
    while i < statuses.len()
        invariant
            i <= statuses.len(),
            all == statuses.deep_view(),
            first_under(all, CI_CONTEXT@) == first_under(all.skip(i as int), CI_CONTEXT@),
        decreases statuses.len() - i,
    {
        let entry = &statuses[i];
        proof {
            assert(all.skip(i as int).first() == entry@);
            assert(all.skip(i as int).drop_first() =~= all.skip(i + 1));
        }
        if same_text(entry.context.as_str(), CI_CONTEXT) {
            return Some(
                PullRequestStatus {
                    number: pull.number,
                    state: classify(entry.state.as_str()),
                    github_url: pull.html_url.clone(),
                    pipeline_url: entry.target_url.clone(),
                },
            );
        }
        i += 1;
    }
    None
}

/// Reduces what was fetched to the pipeline statuses: one for each pull request that has a
/// status entry under [`CI_CONTEXT`], in the order in which the pull requests were fetched.
pub fn gitlab_statuses(fetched: &Vec<PullStatuses>) -> (found: Vec<PullRequestStatus>)
    ensures
        found.deep_view() == collected(fetched.deep_view()),
{
    let ghost all = fetched.deep_view();
    let ghost pick = |f: FetchedView| fetched_status(f);
    let mut found: Vec<PullRequestStatus> = Vec::new();
    let mut i: usize = 0;
    assert(all.take(0).filter_map(pick) =~= Seq::<StatusView>::empty());
    while i < fetched.len()
        invariant
            i <= fetched.len(),
            all == fetched.deep_view(),
            pick == |f: FetchedView| fetched_status(f),
            found.deep_view() == all.take(i as int).filter_map(pick),
        decreases fetched.len() - i,
    {
        let item = &fetched[i];
        proof {
            all.lemma_filter_map_take_succ(pick, i as int);
            assert(all[i as int] == item@);
        }
        let ghost before = found.deep_view();
        match gitlab_status(&item.pull, &item.statuses) {
            Some(status) => {
                found.push(status);
                assert(found.deep_view() =~= before + seq![status@]);
            },
            None => {},
        }
        i += 1;
    }
    assert(all.take(fetched.len() as int) =~= all);
    found
}

} // verus!
