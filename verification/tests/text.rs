use pr_checker::config::{Config, USER_AGENT};
use pr_checker::notify::{finish_message, outcome_word};
use pr_checker::pulls::PullRequestStatus;
use pr_checker::status::{classify, is_done, GitlabStatus};
use pr_checker::text::{decimal, same_text};

fn entry(number: i32, state: GitlabStatus, link: &str) -> PullRequestStatus {
    PullRequestStatus {
        number,
        state,
        github_url: link.to_string(),
        pipeline_url: String::new(),
    }
}

#[test]
fn decimal_of_small_numbers() {
    assert_eq!(decimal(0), "0");
    assert_eq!(decimal(5), "5");
    assert_eq!(decimal(9), "9");
    assert_eq!(decimal(10), "10");
    assert_eq!(decimal(42), "42");
    assert_eq!(decimal(100), "100");
    assert_eq!(decimal(1907), "1907");
}

#[test]
fn decimal_of_negative_numbers() {
    assert_eq!(decimal(-1), "-1");
    assert_eq!(decimal(-10), "-10");
    assert_eq!(decimal(-120), "-120");
}

#[test]
fn decimal_at_the_limits() {
    assert_eq!(decimal(i32::MAX), "2147483647");
    assert_eq!(decimal(i32::MIN), "-2147483648");
}

#[test]
fn decimal_agrees_with_the_standard_formatting() {
    for n in [-100_000, -99, -9, 0, 7, 19, 100, 65_535, 1_000_000_007] {
        assert_eq!(decimal(n), format!("{}", n));
    }
}

#[test]
fn same_text_compares_characters() {
    assert!(same_text("", ""));
    assert!(same_text("abc", "abc"));
    assert!(!same_text("abc", "abd"));
    assert!(!same_text("abc", "ab"));
    assert!(!same_text("ab", "abc"));
    assert!(!same_text("abc", "ABC"));
    assert!(!same_text("", " "));
}

#[test]
fn same_text_beyond_ascii() {
    assert!(same_text("héllo ✓", "héllo ✓"));
    assert!(!same_text("héllo", "hello"));
    assert!(!same_text("é", "e\u{301}"));
}

#[test]
fn is_done_only_for_success_and_failure() {
    assert!(is_done(&GitlabStatus::Success));
    assert!(is_done(&GitlabStatus::Failure));
    assert!(!is_done(&GitlabStatus::Pending));
    assert!(!is_done(&GitlabStatus::Running));
    assert!(!is_done(&GitlabStatus::Invalid));
}

#[test]
fn classify_knows_four_words() {
    assert_eq!(classify("success"), GitlabStatus::Success);
    assert_eq!(classify("failure"), GitlabStatus::Failure);
    assert_eq!(classify("pending"), GitlabStatus::Pending);
    assert_eq!(classify("running"), GitlabStatus::Running);
}

#[test]
fn classify_takes_other_text_as_invalid() {
    assert_eq!(classify(""), GitlabStatus::Invalid);
    assert_eq!(classify("error"), GitlabStatus::Invalid);
    assert_eq!(classify("canceled"), GitlabStatus::Invalid);
    assert_eq!(classify("Success"), GitlabStatus::Invalid);
    assert_eq!(classify("success "), GitlabStatus::Invalid);
    assert_eq!(classify(" pending"), GitlabStatus::Invalid);
    assert_eq!(classify("succes"), GitlabStatus::Invalid);
}

#[test]
fn unknown_text_is_not_finished() {
    assert!(!is_done(&classify("skipped")));
}

#[test]
fn outcome_word_of_each_state() {
    assert_eq!(outcome_word(&GitlabStatus::Success), "succeeded!");
    assert_eq!(outcome_word(&GitlabStatus::Failure), "failed!");
    assert_eq!(outcome_word(&GitlabStatus::Pending), "uhhh");
    assert_eq!(outcome_word(&GitlabStatus::Running), "uhhh");
    assert_eq!(outcome_word(&GitlabStatus::Invalid), "uhhh");
}

#[test]
fn message_of_a_success() {
    let status = entry(5, GitlabStatus::Success, "https://x/5");
    assert_eq!(finish_message(&status), "PR #5 succeeded! PR Link: https://x/5");
}

#[test]
fn message_of_a_failure() {
    let status = entry(1234, GitlabStatus::Failure, "https://github.com/o/r/pull/1234");
    assert_eq!(
        finish_message(&status),
        "PR #1234 failed! PR Link: https://github.com/o/r/pull/1234"
    );
}

#[test]
fn message_of_an_unfinished_state() {
    let status = entry(7, GitlabStatus::Running, "https://x/7");
    assert_eq!(finish_message(&status), "PR #7 uhhh PR Link: https://x/7");
}

#[test]
fn message_with_an_empty_link_and_a_negative_number() {
    let status = entry(-3, GitlabStatus::Success, "");
    assert_eq!(finish_message(&status), "PR #-3 succeeded! PR Link: ");
}

#[test]
fn message_does_not_depend_on_the_pipeline_link() {
    let mut status = entry(5, GitlabStatus::Success, "https://x/5");
    let plain = finish_message(&status);
    status.pipeline_url = "https://gitlab.com/p/1".to_string();
    assert_eq!(finish_message(&status), plain);
}

fn config(user: &str, token: &str, repo: &str) -> Config {
    Config {
        github_username: user.to_string(),
        access_token: token.to_string(),
        repo: repo.to_string(),
    }
}

#[test]
fn pulls_url_names_the_repository() {
    let settings = config("mark", "t0k3n", "owner/name");
    assert_eq!(settings.pulls_url(), "https://api.github.com/repos/owner/name/pulls");
}

#[test]
fn pulls_url_of_an_empty_repository() {
    let settings = config("mark", "t0k3n", "");
    assert_eq!(settings.pulls_url(), "https://api.github.com/repos//pulls");
}

#[test]
fn authorization_is_a_bearer_token() {
    let settings = config("mark", "t0k3n", "owner/name");
    assert_eq!(settings.authorization(), "Bearer t0k3n");
}

#[test]
fn user_agent_is_fixed() {
    assert_eq!(USER_AGENT, "Mark's Cool PR Checker");
}
