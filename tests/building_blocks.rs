use pr_dispatch::candidate::{
    authored_candidates, candidate_label, candidate_labels, pull_request_numbers, search_query,
    PullRequestCandidate, SearchHit,
};
use pr_dispatch::commit::{latest_commit, CommitRef};
use pr_dispatch::config::{Config, Settings};
use pr_dispatch::environment::{
    environment_label, environment_labels, parse_environment_number, ArgumentError,
    ENVIRONMENT_COUNT,
};
use pr_dispatch::error::{ConfigVar, PipelineError, RemoteCall};
use pr_dispatch::payload::build_dispatch_request;
use pr_dispatch::text::to_decimal;

fn candidate(number: u64, title: Option<&str>, branch: &str, author: &str) -> PullRequestCandidate {
    PullRequestCandidate {
        number,
        title: title.map(|t| t.to_string()),
        branch_ref: branch.to_string(),
        author: author.to_string(),
    }
}

fn settings(token: Option<&str>, org: Option<&str>, repo: Option<&str>) -> Settings {
    Settings {
        token: token.map(|s| s.to_string()),
        org: org.map(|s| s.to_string()),
        repo: repo.map(|s| s.to_string()),
        workflow_id: None,
    }
}

#[test]
fn decimal_rendering() {
    assert_eq!(to_decimal(0), "0");
    assert_eq!(to_decimal(7), "7");
    assert_eq!(to_decimal(10), "10");
    assert_eq!(to_decimal(1234), "1234");
    assert_eq!(to_decimal(u64::MAX), "18446744073709551615");
}

#[test]
fn environment_labels_are_numbered_from_one() {
    let labels = environment_labels();
    assert_eq!(labels.len(), ENVIRONMENT_COUNT as usize);
    assert_eq!(labels[0], "experimental1");
    assert_eq!(labels[2], "experimental3");
    assert_eq!(labels[7], "experimental8");
    assert_eq!(environment_label(12), "experimental12");
}

#[test]
fn environment_argument_inside_range_is_accepted() {
    assert_eq!(parse_environment_number("1"), Ok(1));
    assert_eq!(parse_environment_number("5"), Ok(5));
    assert_eq!(parse_environment_number("8"), Ok(8));
    assert_eq!(parse_environment_number("03"), Ok(3));
}

#[test]
fn environment_argument_at_boundaries_is_refused() {
    assert_eq!(parse_environment_number("0"), Err(ArgumentError::OutOfRange));
    assert_eq!(parse_environment_number("9"), Err(ArgumentError::OutOfRange));
    assert_eq!(parse_environment_number("100000000000000000000000"), Err(ArgumentError::OutOfRange));
}

#[test]
fn environment_argument_that_is_not_a_number_is_refused() {
    assert_eq!(parse_environment_number(""), Err(ArgumentError::NotANumber));
    assert_eq!(parse_environment_number("abc"), Err(ArgumentError::NotANumber));
    assert_eq!(parse_environment_number("3a"), Err(ArgumentError::NotANumber));
    assert_eq!(parse_environment_number("+3"), Err(ArgumentError::NotANumber));
    assert_eq!(parse_environment_number(" 3"), Err(ArgumentError::NotANumber));
    assert_eq!(parse_environment_number("-1"), Err(ArgumentError::NotANumber));
}

#[test]
fn short_sha_is_first_seven_characters() {
    let c = CommitRef::from_full_sha("0123456789abcdef0123456789abcdef01234567".to_string());
    assert_eq!(c.short_sha, "0123456");
    assert_eq!(c.full_sha, "0123456789abcdef0123456789abcdef01234567");
    let exact = CommitRef::from_full_sha("abcdef0".to_string());
    assert_eq!(exact.short_sha, "abcdef0");
}

#[test]
fn short_sha_of_short_hash_is_whole_hash() {
    let c = CommitRef::from_full_sha("abc".to_string());
    assert_eq!(c.short_sha, "abc");
    let empty = CommitRef::from_full_sha(String::new());
    assert_eq!(empty.short_sha, "");
}

#[test]
fn latest_commit_takes_first_entry() {
    let shas = vec!["fedcba9876543210".to_string(), "1111111222222".to_string()];
    let c = latest_commit(&shas).unwrap();
    assert_eq!(c.full_sha, "fedcba9876543210");
    assert_eq!(c.short_sha, "fedcba9");
}

#[test]
fn latest_commit_of_empty_branch_is_empty_result() {
    assert_eq!(latest_commit(&vec![]), Err(PipelineError::EmptyResult));
}

#[test]
fn search_query_names_author_and_repository() {
    assert_eq!(
        search_query("octo", "acme", "widgets"),
        "type:pr state:open author:octo repo:acme/widgets"
    );
}

#[test]
fn only_pull_request_hits_are_kept_in_order() {
    let hits = vec![
        SearchHit { number: 5, is_pull_request: true },
        SearchHit { number: 3, is_pull_request: false },
        SearchHit { number: 9, is_pull_request: true },
        SearchHit { number: 1, is_pull_request: true },
    ];
    assert_eq!(pull_request_numbers(&hits), vec![5, 9, 1]);
    assert_eq!(pull_request_numbers(&vec![]), Vec::<u64>::new());
}

#[test]
fn candidates_are_authored_by_identity_in_fetched_order() {
    let fetched = vec![
        Some(candidate(12, Some("B"), "b", "me")),
        None,
        Some(candidate(10, Some("Other"), "o", "someone")),
        Some(candidate(11, None, "a", "me")),
        Some(candidate(13, Some("Case"), "c", "Me")),
    ];
    let got = authored_candidates(&fetched, "me");
    assert_eq!(got, vec![candidate(12, Some("B"), "b", "me"), candidate(11, None, "a", "me")]);
    assert!(authored_candidates(&vec![None, None], "me").is_empty());
}

#[test]
fn candidate_labels_show_number_and_title() {
    assert_eq!(candidate_label(&candidate(10, Some("Fix bug"), "fix-bug", "me")), "#10 - Fix bug");
    assert_eq!(candidate_label(&candidate(7, None, "x", "me")), "#7 - ");
    let labels = candidate_labels(&vec![
        candidate(10, Some("Fix bug"), "fix-bug", "me"),
        candidate(11, Some("Add feature"), "add-feat", "me"),
    ]);
    assert_eq!(labels, vec!["#10 - Fix bug".to_string(), "#11 - Add feature".to_string()]);
}

#[test]
fn dispatch_request_has_exactly_two_inputs() {
    let commit = CommitRef::from_full_sha("a1b2c3d4e5f6".to_string());
    let r = build_dispatch_request("acme", "widgets", "deploy.yml", "add-feat", &commit, "experimental3")
        .unwrap();
    assert_eq!(r.owner, "acme");
    assert_eq!(r.repo, "widgets");
    assert_eq!(r.workflow_id, "deploy.yml");
    assert_eq!(r.git_ref, "add-feat");
    assert_eq!(
        r.inputs(),
        vec![
            ("commit_sha".to_string(), "a1b2c3d".to_string()),
            ("target".to_string(), "experimental3".to_string()),
        ]
    );
}

#[test]
fn dispatch_request_refuses_empty_fields() {
    let commit = CommitRef::from_full_sha("a1b2c3d4e5f6".to_string());
    let empty = CommitRef::from_full_sha(String::new());
    assert_eq!(
        build_dispatch_request("o", "r", "w", "", &commit, "experimental1"),
        Err(PipelineError::EmptyPayloadField)
    );
    assert_eq!(
        build_dispatch_request("o", "r", "w", "main", &empty, "experimental1"),
        Err(PipelineError::EmptyPayloadField)
    );
    assert_eq!(
        build_dispatch_request("o", "r", "w", "main", &commit, ""),
        Err(PipelineError::EmptyPayloadField)
    );
}

#[test]
fn configuration_requires_token_org_and_repo() {
    assert_eq!(
        Config::from_settings(settings(None, Some("acme"), Some("widgets"))),
        Err(PipelineError::ConfigurationMissing(ConfigVar::Token))
    );
    assert_eq!(
        Config::from_settings(settings(Some("t"), None, Some("widgets"))),
        Err(PipelineError::ConfigurationMissing(ConfigVar::Org))
    );
    assert_eq!(
        Config::from_settings(settings(Some("t"), Some("acme"), None)),
        Err(PipelineError::ConfigurationMissing(ConfigVar::Repo))
    );
    let c = Config::from_settings(settings(Some("t"), Some("acme"), Some("widgets"))).unwrap();
    assert_eq!(c.token, "t");
    assert_eq!(c.owner, "acme");
    assert_eq!(c.repo, "widgets");
    assert_eq!(c.workflow_id, None);
}

#[test]
fn variable_names_and_hints() {
    assert_eq!(ConfigVar::Token.name(), "GITHUB_TOKEN");
    assert_eq!(ConfigVar::Org.name(), "GITHUB_ORG");
    assert_eq!(ConfigVar::Repo.name(), "GITHUB_REPO");
    assert_eq!(PipelineError::EmptyResult.hint(), "No commits found in branch");
    let e = PipelineError::RemoteRequestFailed {
        call: RemoteCall::DispatchWorkflow,
        detail: "422".to_string(),
    };
    assert_eq!(
        e.hint(),
        "Failed to trigger workflow. Please check workflow inputs match your workflow file."
    );
    let a = PipelineError::AuthenticationFailed { detail: "401".to_string() };
    assert!(a.hint().contains("check your GitHub token has correct permissions"));
}
