use pr_dispatch::candidate::PullRequestCandidate;
use pr_dispatch::config::Settings;
use pr_dispatch::environment::ArgumentError;
use pr_dispatch::error::{ConfigVar, PipelineError, RemoteCall};
use pr_dispatch::pipeline::{Action, Event, Outcome, Phase, Pipeline, WorkflowDescriptor};

const ADD_FEAT_SHA: &str = "9f8e7d6c5b4a39281706f5e4d3c2b1a098765432";

fn settings(workflow_id: Option<&str>) -> Settings {
    Settings {
        token: Some("SECRET-REDACTED".to_string()),
        org: Some("acme".to_string()),
        repo: Some("widgets".to_string()),
        workflow_id: workflow_id.map(|w| w.to_string()),
    }
}

fn pr(number: u64, title: &str, branch: &str) -> Option<PullRequestCandidate> {
    Some(PullRequestCandidate {
        number,
        title: Some(title.to_string()),
        branch_ref: branch.to_string(),
        author: "octo".to_string(),
    })
}

fn started(workflow_id: Option<&str>, arg: Option<&str>) -> Pipeline {
    let (p, a) = Pipeline::start(settings(workflow_id), arg).unwrap();
    assert_eq!(a, Action::Authenticate { token: "SECRET-REDACTED".to_string() });
    let (p, a) = p.step(Event::Identity(Ok("octo".to_string())));
    match a {
        Action::FetchAndChooseEnvironment { query, environments, default_index } => {
            assert_eq!(query, "type:pr state:open author:octo repo:acme/widgets");
            assert_eq!(environments.len(), 8);
            assert_eq!(environments[0], "experimental1");
            assert_eq!(default_index, p.default_environment as usize - 1);
        }
        other => panic!("unexpected action {:?}", other),
    }
    p
}

fn two_prs() -> Vec<Option<PullRequestCandidate>> {
    vec![pr(10, "Fix bug", "fix-bug"), pr(11, "Add feature", "add-feat")]
}

#[test]
fn two_open_pull_requests_dispatch_the_chosen_one() {
    let p = started(Some("deploy.yml"), None);
    let (p, a) = p.step(Event::Joined { environment: Some(2), fetched: Ok(two_prs()) });
    assert_eq!(
        a,
        Action::ChoosePullRequest {
            labels: vec!["#10 - Fix bug".to_string(), "#11 - Add feature".to_string()]
        }
    );
    let (p, a) = p.step(Event::PullRequestChosen(Some(1)));
    assert_eq!(a, Action::ListCommits { branch: "add-feat".to_string() });
    let (p, a) = p.step(Event::Commits(Ok(vec![ADD_FEAT_SHA.to_string()])));
    let request = match a {
        Action::Dispatch(r) => r,
        other => panic!("unexpected action {:?}", other),
    };
    assert_eq!(request.git_ref, "add-feat");
    assert_eq!(request.workflow_id, "deploy.yml");
    assert_eq!(request.owner, "acme");
    assert_eq!(request.repo, "widgets");
    assert_eq!(
        request.inputs(),
        vec![
            ("commit_sha".to_string(), "9f8e7d6".to_string()),
            ("target".to_string(), "experimental3".to_string()),
        ]
    );
    assert!(p.dispatched);
    let (p, a) = p.step(Event::Dispatched(Ok(())));
    assert_eq!(
        a,
        Action::Finish(Outcome::Dispatched {
            branch: "add-feat".to_string(),
            commit_sha: "9f8e7d6".to_string(),
            target: "experimental3".to_string(),
        })
    );
    assert_eq!(p.phase, Phase::Done);
}

#[test]
fn missing_token_fails_before_any_remote_call() {
    let mut s = settings(None);
    s.token = None;
    assert_eq!(
        Pipeline::start(s, Some("3")).unwrap_err(),
        PipelineError::ConfigurationMissing(ConfigVar::Token)
    );
}

#[test]
fn invalid_environment_argument_fails_before_any_remote_call() {
    for (arg, why) in [
        ("0", ArgumentError::OutOfRange),
        ("9", ArgumentError::OutOfRange),
        ("seven", ArgumentError::NotANumber),
    ] {
        assert_eq!(
            Pipeline::start(settings(None), Some(arg)).unwrap_err(),
            PipelineError::InvalidEnvironmentArgument(why)
        );
    }
}

#[test]
fn valid_environment_argument_is_preselected() {
    let (p, a) = Pipeline::start(settings(None), Some("8")).unwrap();
    assert_eq!(p.default_environment, 8);
    assert_eq!(p.phase, Phase::AwaitingIdentity);
    assert!(matches!(a, Action::Authenticate { .. }));
    let (p, _) = Pipeline::start(settings(None), None).unwrap();
    assert_eq!(p.default_environment, 1);
    let p = started(None, Some("4"));
    assert_eq!(p.default_environment, 4);
}

#[test]
fn no_open_pull_requests_is_a_clean_finish() {
    let p = started(Some("deploy.yml"), None);
    let (p, a) = p.step(Event::Joined { environment: Some(0), fetched: Ok(vec![]) });
    assert_eq!(a, Action::Finish(Outcome::NoCandidates));
    assert_eq!(p.phase, Phase::Done);
    let (p2, a2) = p.clone().step(Event::PullRequestChosen(Some(0)));
    assert_eq!(a2, Action::Ignore);
    assert_eq!(p2, p);
}

#[test]
fn failed_detail_lookups_and_other_authors_are_dropped() {
    let p = started(Some("deploy.yml"), None);
    let mut foreign = pr(12, "Theirs", "theirs").unwrap();
    foreign.author = "someone".to_string();
    let fetched = vec![None, Some(foreign), None];
    let (_, a) = p.step(Event::Joined { environment: Some(1), fetched: Ok(fetched) });
    assert_eq!(a, Action::Finish(Outcome::NoCandidates));
}

#[test]
fn branch_without_commits_fails_without_dispatch() {
    let p = started(Some("deploy.yml"), None);
    let (p, _) = p.step(Event::Joined { environment: Some(0), fetched: Ok(two_prs()) });
    let (p, _) = p.step(Event::PullRequestChosen(Some(0)));
    let (p, a) = p.step(Event::Commits(Ok(vec![])));
    assert_eq!(a, Action::Fail(PipelineError::EmptyResult));
    assert_eq!(p.phase, Phase::Failed);
    assert!(!p.dispatched);
}

#[test]
fn search_failure_is_fatal_and_distinct_from_cancel() {
    let p = started(None, None);
    let (_, a) = p.clone().step(Event::Joined {
        environment: Some(0),
        fetched: Err("500".to_string()),
    });
    assert_eq!(
        a,
        Action::Fail(PipelineError::RemoteRequestFailed {
            call: RemoteCall::SearchPullRequests,
            detail: "500".to_string(),
        })
    );
    let (_, a) = p.step(Event::Joined { environment: None, fetched: Ok(two_prs()) });
    assert_eq!(a, Action::Fail(PipelineError::UserCancelled));
}

#[test]
fn authentication_failure_is_fatal() {
    let (p, _) = Pipeline::start(settings(None), None).unwrap();
    let (p, a) = p.step(Event::Identity(Err("Bad credentials".to_string())));
    assert_eq!(
        a,
        Action::Fail(PipelineError::AuthenticationFailed { detail: "Bad credentials".to_string() })
    );
    assert_eq!(p.phase, Phase::Failed);
}

#[test]
fn selections_outside_the_list_are_refused() {
    let p = started(Some("deploy.yml"), None);
    let (_, a) = p.clone().step(Event::Joined { environment: Some(8), fetched: Ok(two_prs()) });
    assert_eq!(a, Action::Fail(PipelineError::InvalidSelection));
    let (p, _) = p.step(Event::Joined { environment: Some(7), fetched: Ok(two_prs()) });
    let (_, a) = p.clone().step(Event::PullRequestChosen(Some(2)));
    assert_eq!(a, Action::Fail(PipelineError::InvalidSelection));
    let (_, a) = p.step(Event::PullRequestChosen(None));
    assert_eq!(a, Action::Fail(PipelineError::UserCancelled));
}

#[test]
fn commit_listing_failure_is_fatal() {
    let p = started(Some("deploy.yml"), None);
    let (p, _) = p.step(Event::Joined { environment: Some(0), fetched: Ok(two_prs()) });
    let (p, _) = p.step(Event::PullRequestChosen(Some(0)));
    let (_, a) = p.step(Event::Commits(Err("404".to_string())));
    assert_eq!(
        a,
        Action::Fail(PipelineError::RemoteRequestFailed {
            call: RemoteCall::ListCommits,
            detail: "404".to_string(),
        })
    );
}

fn workflows() -> Vec<WorkflowDescriptor> {
    vec![
        WorkflowDescriptor {
            id: "101".to_string(),
            name: "CI".to_string(),
            path: ".github/workflows/ci.yml".to_string(),
        },
        WorkflowDescriptor {
            id: "202".to_string(),
            name: "Deploy experimental".to_string(),
            path: ".github/workflows/deploy.yml".to_string(),
        },
    ]
}

#[test]
fn without_configured_workflow_the_user_picks_one() {
    let p = started(None, Some("2"));
    let (p, _) = p.step(Event::Joined { environment: Some(4), fetched: Ok(two_prs()) });
    let (p, _) = p.step(Event::PullRequestChosen(Some(0)));
    let (p, a) = p.step(Event::Commits(Ok(vec!["abcdef0123".to_string(), "1234567".to_string()])));
    assert_eq!(a, Action::ListWorkflows);
    let (p, a) = p.step(Event::Workflows(Ok(workflows())));
    assert_eq!(
        a,
        Action::ChooseWorkflow { labels: vec!["CI".to_string(), "Deploy experimental".to_string()] }
    );
    let (p, a) = p.step(Event::WorkflowChosen(Some(1)));
    let request = match a {
        Action::Dispatch(r) => r,
        other => panic!("unexpected action {:?}", other),
    };
    assert_eq!(request.workflow_id, "202");
    assert_eq!(request.git_ref, "fix-bug");
    assert_eq!(request.commit_sha, "abcdef0");
    assert_eq!(request.target, "experimental5");
    let (_, a) = p.step(Event::Dispatched(Err("422".to_string())));
    assert_eq!(
        a,
        Action::Fail(PipelineError::RemoteRequestFailed {
            call: RemoteCall::DispatchWorkflow,
            detail: "422".to_string(),
        })
    );
}

#[test]
fn empty_workflow_list_is_fatal() {
    let p = started(None, None);
    let (p, _) = p.step(Event::Joined { environment: Some(0), fetched: Ok(two_prs()) });
    let (p, _) = p.step(Event::PullRequestChosen(Some(1)));
    let (p, _) = p.step(Event::Commits(Ok(vec![ADD_FEAT_SHA.to_string()])));
    let (_, a) = p.step(Event::Workflows(Ok(vec![])));
    assert_eq!(a, Action::Fail(PipelineError::NoWorkflows));
}

#[test]
fn dispatch_is_handed_out_once() {
    let p = started(Some("deploy.yml"), None);
    let (p, _) = p.step(Event::Joined { environment: Some(0), fetched: Ok(two_prs()) });
    let (p, _) = p.step(Event::PullRequestChosen(Some(0)));
    let (p, a) = p.step(Event::Commits(Ok(vec![ADD_FEAT_SHA.to_string()])));
    assert!(matches!(a, Action::Dispatch(_)));
    let (p, a) = p.step(Event::Commits(Ok(vec![ADD_FEAT_SHA.to_string()])));
    assert_eq!(a, Action::Ignore);
    let (p, a) = p.step(Event::Dispatched(Ok(())));
    assert!(matches!(a, Action::Finish(Outcome::Dispatched { .. })));
    let (_, a) = p.step(Event::Commits(Ok(vec![ADD_FEAT_SHA.to_string()])));
    assert_eq!(a, Action::Ignore);
}

#[test]
fn empty_branch_name_is_never_dispatched() {
    let p = started(Some("deploy.yml"), None);
    let fetched = vec![pr(3, "Nameless", "")];
    let (p, _) = p.step(Event::Joined { environment: Some(0), fetched: Ok(fetched) });
    let (p, _) = p.step(Event::PullRequestChosen(Some(0)));
    let (p, a) = p.step(Event::Commits(Ok(vec![ADD_FEAT_SHA.to_string()])));
    assert_eq!(a, Action::Fail(PipelineError::EmptyPayloadField));
    assert!(!p.dispatched);
}
