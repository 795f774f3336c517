use pr_checker::pulls::{
    authored_by, gitlab_status, gitlab_statuses, ApiPullRequest, ApiPullRequestStatus, Head,
    PullRequestStatus, PullStatuses, User, CI_CONTEXT,
};
use pr_checker::status::GitlabStatus;

fn pull(number: i32, login: &str) -> ApiPullRequest {
    ApiPullRequest {
        url: format!("https://api/pulls/{}", number),
        html_url: format!("https://x/{}", number),
        number,
        state: "open".to_string(),
        user: User { login: login.to_string() },
        statuses_url: format!("https://api/statuses/{}", number),
        head: Head { sha: format!("sha{}", number) },
    }
}

fn report(context: &str, state: &str, target: &str) -> ApiPullRequestStatus {
    ApiPullRequestStatus {
        state: state.to_string(),
        description: "Pipeline".to_string(),
        context: context.to_string(),
        target_url: target.to_string(),
    }
}

fn kept(number: i32, state: GitlabStatus, target: &str) -> PullRequestStatus {
    PullRequestStatus {
        number,
        state,
        github_url: format!("https://x/{}", number),
        pipeline_url: target.to_string(),
    }
}

#[test]
fn the_context_is_the_gitlab_one() {
    assert_eq!(CI_CONTEXT, "ci/gitlab/gitlab.com");
}

#[test]
fn authored_by_keeps_the_users_pulls_in_order() {
    let listed = vec![pull(1, "mark"), pull(2, "ann"), pull(3, "mark"), pull(4, "Mark")];
    let mine = authored_by(listed, "mark");
    assert_eq!(mine, vec![pull(1, "mark"), pull(3, "mark")]);
}

#[test]
fn authored_by_nobody() {
    let listed = vec![pull(1, "mark"), pull(2, "ann")];
    assert!(authored_by(listed, "zoe").is_empty());
    assert!(authored_by(Vec::new(), "mark").is_empty());
}

#[test]
fn authored_by_everybody() {
    let listed = vec![pull(1, "mark"), pull(2, "mark")];
    assert_eq!(authored_by(listed.clone(), "mark"), listed);
}

#[test]
fn gitlab_status_takes_the_first_entry_under_the_context() {
    let statuses = vec![
        report("ci/travis", "failure", "https://travis/1"),
        report("ci/gitlab/gitlab.com", "running", "https://ci/new"),
        report("ci/gitlab/gitlab.com", "success", "https://ci/old"),
    ];
    let found = gitlab_status(&pull(11, "mark"), &statuses);
    assert_eq!(found, Some(kept(11, GitlabStatus::Running, "https://ci/new")));
}

#[test]
fn gitlab_status_ignores_what_follows_the_first_match() {
    let first = report("ci/gitlab/gitlab.com", "pending", "https://ci/1");
    let short = gitlab_status(&pull(2, "mark"), &vec![first.clone()]);
    let long = gitlab_status(
        &pull(2, "mark"),
        &vec![
            first,
            report("ci/gitlab/gitlab.com", "failure", "https://ci/0"),
            report("other", "success", "https://o/0"),
        ],
    );
    assert_eq!(short, long);
    assert_eq!(long, Some(kept(2, GitlabStatus::Pending, "https://ci/1")));
}

#[test]
fn gitlab_status_without_an_entry_under_the_context() {
    let statuses = vec![
        report("ci/travis", "success", "https://travis/1"),
        report("ci/gitlab/gitlab.com/extra", "success", "https://ci/1"),
        report("ci/gitlab", "success", "https://ci/2"),
    ];
    assert_eq!(gitlab_status(&pull(3, "mark"), &statuses), None);
    assert_eq!(gitlab_status(&pull(3, "mark"), &Vec::new()), None);
}

#[test]
fn gitlab_status_classifies_each_word() {
    for (word, state) in [
        ("success", GitlabStatus::Success),
        ("failure", GitlabStatus::Failure),
        ("pending", GitlabStatus::Pending),
        ("running", GitlabStatus::Running),
        ("canceled", GitlabStatus::Invalid),
    ] {
        let statuses = vec![report("ci/gitlab/gitlab.com", word, "https://ci/9")];
        assert_eq!(
            gitlab_status(&pull(9, "mark"), &statuses),
            Some(kept(9, state, "https://ci/9"))
        );
    }
}

#[test]
fn gitlab_status_with_unknown_text_is_invalid_and_not_skipped() {
    let statuses = vec![
        report("ci/gitlab/gitlab.com", "exploded", "https://ci/new"),
        report("ci/gitlab/gitlab.com", "success", "https://ci/old"),
    ];
    assert_eq!(
        gitlab_status(&pull(4, "mark"), &statuses),
        Some(kept(4, GitlabStatus::Invalid, "https://ci/new"))
    );
}

#[test]
fn gitlab_statuses_keeps_one_entry_for_each_pull_with_a_status() {
    let fetched = vec![
        PullStatuses {
            pull: pull(1, "mark"),
            statuses: vec![report("ci/gitlab/gitlab.com", "success", "https://ci/1")],
        },
        PullStatuses { pull: pull(2, "mark"), statuses: Vec::new() },
        PullStatuses {
            pull: pull(3, "mark"),
            statuses: vec![
                report("lint", "failure", "https://lint/3"),
                report("ci/gitlab/gitlab.com", "pending", "https://ci/3"),
                report("ci/gitlab/gitlab.com", "failure", "https://ci/3-old"),
            ],
        },
        PullStatuses {
            pull: pull(4, "mark"),
            statuses: vec![report("lint", "success", "https://lint/4")],
        },
    ];
    assert_eq!(
        gitlab_statuses(&fetched),
        vec![
            kept(1, GitlabStatus::Success, "https://ci/1"),
            kept(3, GitlabStatus::Pending, "https://ci/3"),
        ]
    );
}

#[test]
fn gitlab_statuses_of_nothing() {
    assert!(gitlab_statuses(&Vec::new()).is_empty());
}
