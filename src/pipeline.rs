//! The fetch-and-select pipeline as a step function: from its phase and the
//! outcome of the last action, the pipeline decides its next phase and the
//! next action for the caller to perform.
use vstd::prelude::*;
use crate::candidate::{
    PullRequestCandidate,
    authored_candidates,
    authored_candidates_spec,
    candidate_label_spec,
    candidate_labels,
    search_query,
    search_query_spec,
};
use crate::commit::{CommitRef, latest_commit, short_sha_spec};
use crate::config::{Config, Settings, config_spec};
use crate::environment::{
    ENVIRONMENT_COUNT,
    environment_label,
    environment_label_spec,
    environment_labels,
    parse_environment_number,
    parse_environment_spec,
};
use crate::error::{PipelineError, RemoteCall};
use crate::payload::{DispatchRequest, build_dispatch_request, inputs_spec, inputs_wf, request_holds};

verus! {

/// A workflow of the repository.
#[derive(Debug, Clone, PartialEq, Eq)]
pub struct WorkflowDescriptor {
    pub id: String,
    pub name: String,
    pub path: String,
}

/// Where a run stands.
#[derive(Debug, Clone, PartialEq, Eq)]
pub enum Phase {
    AwaitingIdentity,
    AwaitingJoin { identity: String },
    AwaitingPullRequestChoice { candidates: Vec<PullRequestCandidate>, target: String },
    AwaitingCommits { branch: String, target: String },
    AwaitingWorkflows { branch: String, commit: CommitRef, target: String },
    AwaitingWorkflowChoice {
        branch: String,
        commit: CommitRef,
        target: String,
        workflows: Vec<WorkflowDescriptor>,
    },
    AwaitingDispatch { request: DispatchRequest },
    Done,
    Failed,
}

/// The outcome of the last action. A remote failure carries the remote
/// side's description; a prompt answer is `None` when the prompt was aborted.
#[derive(Debug, PartialEq, Eq)]
pub enum Event {
    Identity(Result<String, String>),
    /// Both branches of the concurrent phase have finished: the environment
    /// prompt and the fetch of pull request details (`None` where a detail
    /// lookup failed).
    Joined {
        environment: Option<usize>,
        fetched: Result<Vec<Option<PullRequestCandidate>>, String>,
    },
    PullRequestChosen(Option<usize>),
    Commits(Result<Vec<String>, String>),
    Workflows(Result<Vec<WorkflowDescriptor>, String>),
    WorkflowChosen(Option<usize>),
    Dispatched(Result<(), String>),
}

/// How a successful run ends.
#[derive(Debug, Clone, PartialEq, Eq)]
pub enum Outcome {
    /// The user has no open pull requests: nothing to do.
    NoCandidates,
    /// The workflow run was requested.
    Dispatched { branch: String, commit_sha: String, target: String },
}

/// What the caller is to do next.
#[derive(Debug, Clone, PartialEq, Eq)]
pub enum Action {
    /// Look up the identity the token belongs to.
    Authenticate { token: String },
    /// Start the search with `query` and the detail lookups in the
    /// background, prompt for one of `environments` meanwhile, then join.
    FetchAndChooseEnvironment { query: String, environments: Vec<String>, default_index: usize },
    ChoosePullRequest { labels: Vec<String> },
    ListCommits { branch: String },
    ListWorkflows,
    ChooseWorkflow { labels: Vec<String> },
    Dispatch(DispatchRequest),
    Finish(Outcome),
    Fail(PipelineError),
    /// The event does not belong to the current phase; nothing changed.
    Ignore,
}

/// One run of the pipeline.
#[derive(Debug, Clone, PartialEq, Eq)]
pub struct Pipeline {
    pub config: Config,
    /// The environment preselected in the prompt, `1..=ENVIRONMENT_COUNT`.
    pub default_environment: u64,
    pub phase: Phase,
    /// Whether the dispatch action has been handed out.
    pub dispatched: bool,
}

impl Pipeline {
    /// The dispatch has been handed out exactly in the phases after it.
    pub open spec fn wf(&self) -> bool {
        &&& 1 <= self.default_environment <= ENVIRONMENT_COUNT
        &&& match self.phase {
            Phase::AwaitingDispatch { .. } => self.dispatched,
            Phase::Done => true,
            Phase::Failed => true,
            _ => !self.dispatched,
        }
    }
}

/// `q` continues the run of `p`.
pub open spec fn same_run(p: Pipeline, q: Pipeline) -> bool {
    q.config == p.config && q.default_environment == p.default_environment
}

/// The run stops with `e`.
pub open spec fn fails_with(p: Pipeline, q: Pipeline, a: Action, e: PipelineError) -> bool {
    &&& same_run(p, q)
    &&& q.dispatched == p.dispatched
    &&& q.phase == Phase::Failed
    &&& a == Action::Fail(e)
}

/// The labels of all environments, environment `1` first.
pub open spec fn are_environment_labels(labels: Seq<String>) -> bool {
    &&& labels.len() == ENVIRONMENT_COUNT
    &&& forall|i: int|
        0 <= i < labels.len() ==> #[trigger] labels[i]@ == environment_label_spec((i + 1) as nat)
}

pub open spec fn identity_step(p: Pipeline, res: Result<String, String>, q: Pipeline, a: Action) -> bool {
    match res {
        Ok(login) => {
            &&& same_run(p, q)
            &&& q.dispatched == p.dispatched
            &&& q.phase == Phase::AwaitingJoin { identity: login }
            &&& match a {
                Action::FetchAndChooseEnvironment { query, environments, default_index } => {
                    &&& query@ == search_query_spec(login@, p.config.owner@, p.config.repo@)
                    &&& are_environment_labels(environments@)
                    &&& default_index == p.default_environment - 1
                },
                _ => false,
            }
        },
        Err(detail) => fails_with(p, q, a, PipelineError::AuthenticationFailed { detail }),
    }
}

pub open spec fn join_step(
    p: Pipeline,
    identity: String,
    environment: Option<usize>,
    fetched: Result<Vec<Option<PullRequestCandidate>>, String>,
    q: Pipeline,
    a: Action,
) -> bool {
    match environment {
        None => fails_with(p, q, a, PipelineError::UserCancelled),
        Some(index) => if index >= ENVIRONMENT_COUNT {
            fails_with(p, q, a, PipelineError::InvalidSelection)
        } else {
            match fetched {
                Err(detail) => fails_with(
                    p,
                    q,
                    a,
                    PipelineError::RemoteRequestFailed { call: RemoteCall::SearchPullRequests, detail },
                ),
                Ok(list) => {
                    let cands = authored_candidates_spec(list@, identity@);
                    &&& same_run(p, q)
                    &&& q.dispatched == p.dispatched
                    &&& if cands.len() == 0 {
                        q.phase == Phase::Done && a == Action::Finish(Outcome::NoCandidates)
                    } else {
                        &&& match q.phase {
                            Phase::AwaitingPullRequestChoice { candidates, target } => {
                                &&& candidates@ == cands
                                &&& target@ == environment_label_spec((index + 1) as nat)
                            },
                            _ => false,
                        }
                        &&& match a {
                            Action::ChoosePullRequest { labels } => {
                                &&& labels@.len() == cands.len()
                                &&& forall|k: int|
                                    0 <= k < cands.len() ==> #[trigger] labels@[k]@
                                        == candidate_label_spec(cands[k])
                            },
                            _ => false,
                        }
                    }
                },
            }
        },
    }
}

pub open spec fn choice_step(
    p: Pipeline,
    candidates: Vec<PullRequestCandidate>,
    target: String,
    choice: Option<usize>,
    q: Pipeline,
    a: Action,
) -> bool {
    match choice {
        None => fails_with(p, q, a, PipelineError::UserCancelled),
        Some(k) => if k >= candidates@.len() {
            fails_with(p, q, a, PipelineError::InvalidSelection)
        } else {
            let branch = candidates@[k as int].branch_ref;
            &&& same_run(p, q)
            &&& q.dispatched == p.dispatched
            &&& q.phase == Phase::AwaitingCommits { branch, target }
            &&& a == Action::ListCommits { branch }
        },
    }
}

/// The dispatch of `short_sha` on `branch` to `workflow_id` for `target` is
/// handed out, or refused when one of them is empty.
pub open spec fn dispatch_issued(
    p: Pipeline,
    workflow_id: Seq<char>,
    branch: Seq<char>,
    short_sha: Seq<char>,
    target: Seq<char>,
    q: Pipeline,
    a: Action,
) -> bool {
    if branch.len() == 0 || short_sha.len() == 0 || target.len() == 0 {
        fails_with(p, q, a, PipelineError::EmptyPayloadField)
    } else {
        &&& same_run(p, q)
        &&& q.dispatched
        &&& match q.phase {
            Phase::AwaitingDispatch { request } => {
                &&& request_holds(
                    request,
                    p.config.owner@,
                    p.config.repo@,
                    workflow_id,
                    branch,
                    short_sha,
                    target,
                )
                &&& a == Action::Dispatch(request)
            },
            _ => false,
        }
    }
}

pub open spec fn commits_step(
    p: Pipeline,
    branch: String,
    target: String,
    res: Result<Vec<String>, String>,
    q: Pipeline,
    a: Action,
) -> bool {
    match res {
        Err(detail) => fails_with(
            p,
            q,
            a,
            PipelineError::RemoteRequestFailed { call: RemoteCall::ListCommits, detail },
        ),
        Ok(shas) => if shas@.len() == 0 {
            fails_with(p, q, a, PipelineError::EmptyResult)
        } else {
            let full = shas@[0]@;
            match p.config.workflow_id {
                Some(w) => dispatch_issued(p, w@, branch@, short_sha_spec(full), target@, q, a),
                None => {
                    &&& same_run(p, q)
                    &&& q.dispatched == p.dispatched
                    &&& a == Action::ListWorkflows
                    &&& match q.phase {
                        Phase::AwaitingWorkflows { branch: b, commit, target: t } => {
                            &&& b == branch
                            &&& t == target
                            &&& commit.full_sha@ == full
                            &&& commit.wf()
                        },
                        _ => false,
                    }
                },
            }
        },
    }
}

pub open spec fn workflows_step(
    p: Pipeline,
    branch: String,
    commit: CommitRef,
    target: String,
    res: Result<Vec<WorkflowDescriptor>, String>,
    q: Pipeline,
    a: Action,
) -> bool {
    match res {
        Err(detail) => fails_with(
            p,
            q,
            a,
            PipelineError::RemoteRequestFailed { call: RemoteCall::ListWorkflows, detail },
        ),
        Ok(ws) => if ws@.len() == 0 {
            fails_with(p, q, a, PipelineError::NoWorkflows)
        } else {
            &&& same_run(p, q)
            &&& q.dispatched == p.dispatched
            &&& q.phase == Phase::AwaitingWorkflowChoice { branch, commit, target, workflows: ws }
            &&& match a {
                Action::ChooseWorkflow { labels } => {
                    &&& labels@.len() == ws@.len()
                    &&& forall|k: int|
                        0 <= k < ws@.len() ==> #[trigger] labels@[k]@ == ws@[k].name@
                },
                _ => false,
            }
        },
    }
}

pub open spec fn workflow_choice_step(
    p: Pipeline,
    branch: String,
    commit: CommitRef,
    target: String,
    workflows: Vec<WorkflowDescriptor>,
    choice: Option<usize>,
    q: Pipeline,
    a: Action,
) -> bool {
    match choice {
        None => fails_with(p, q, a, PipelineError::UserCancelled),
        Some(k) => if k >= workflows@.len() {
            fails_with(p, q, a, PipelineError::InvalidSelection)
        } else {
            dispatch_issued(
                p,
                workflows@[k as int].id@,
                branch@,
                commit.short_sha@,
                target@,
                q,
                a,
            )
        },
    }
}

pub open spec fn dispatched_step(
    p: Pipeline,
    request: DispatchRequest,
    res: Result<(), String>,
    q: Pipeline,
    a: Action,
) -> bool {
    match res {
        Err(detail) => fails_with(
            p,
            q,
            a,
            PipelineError::RemoteRequestFailed { call: RemoteCall::DispatchWorkflow, detail },
        ),
        Ok(_) => {
            &&& same_run(p, q)
            &&& q.dispatched == p.dispatched
            &&& q.phase == Phase::Done
            &&& a == Action::Finish(
                Outcome::Dispatched {
                    branch: request.git_ref,
                    commit_sha: request.commit_sha,
                    target: request.target,
                },
            )
        },
    }
}

/// The relation between a pipeline, an event, the next pipeline and the
/// action handed out.
pub open spec fn step_spec(p: Pipeline, e: Event, q: Pipeline, a: Action) -> bool {
    match (p.phase, e) {
        (Phase::AwaitingIdentity, Event::Identity(res)) => identity_step(p, res, q, a),
        (Phase::AwaitingJoin { identity }, Event::Joined { environment, fetched }) => join_step(
            p,
            identity,
            environment,
            fetched,
            q,
            a,
        ),
        (
            Phase::AwaitingPullRequestChoice { candidates, target },
            Event::PullRequestChosen(choice),
        ) => choice_step(p, candidates, target, choice, q, a),
        (Phase::AwaitingCommits { branch, target }, Event::Commits(res)) => commits_step(
            p,
            branch,
            target,
            res,
            q,
            a,
        ),
        (Phase::AwaitingWorkflows { branch, commit, target }, Event::Workflows(res)) =>
            workflows_step(p, branch, commit, target, res, q, a),
        (
            Phase::AwaitingWorkflowChoice { branch, commit, target, workflows },
            Event::WorkflowChosen(choice),
        ) => workflow_choice_step(p, branch, commit, target, workflows, choice, q, a),
        (Phase::AwaitingDispatch { request }, Event::Dispatched(res)) => dispatched_step(
            p,
            request,
            res,
            q,
            a,
        ),
        _ => q == p && a == Action::Ignore,
    }
}

/// The environment argument, viewed.
pub open spec fn arg_view(arg: Option<&str>) -> Option<Seq<char>> {
    match arg {
        Some(s) => Some(s@),
        None => None,
    }
}

/// The configuration and preselected environment of a run, or why it cannot
/// start. Configuration is checked before the argument; an absent argument
/// preselects environment `1`.
pub open spec fn start_spec(settings: Settings, arg: Option<Seq<char>>) -> Result<(Config, u64), PipelineError> {
    match config_spec(settings) {
        Err(e) => Err(e),
        Ok(c) => match arg {
            None => Ok((c, 1)),
            Some(s) => match parse_environment_spec(s) {
                Ok(n) => Ok((c, n)),
                Err(e) => Err(PipelineError::InvalidEnvironmentArgument(e)),
            },
        },
    }
}

fn labels_of_workflows(ws: &Vec<WorkflowDescriptor>) -> (r: Vec<String>)
    ensures
        r@.len() == ws@.len(),
        forall|k: int| 0 <= k < ws@.len() ==> #[trigger] r@[k]@ == ws@[k].name@,
{
    let mut out: Vec<String> = Vec::new();
    let mut i: usize = 0;
    while i < ws.len()
        invariant
            i <= ws@.len(),
            out@.len() == i,
            forall|k: int| 0 <= k < i ==> #[trigger] out@[k]@ == ws@[k].name@,
        decreases ws@.len() - i,
    {
        out.push(ws[i].name.clone());
        i = i + 1;
    }
    out
}

impl Pipeline {
    /// Checks the configuration and the environment argument and, when both
    /// are valid, starts a run whose first action is the identity lookup.
    /// Nothing remote is asked for before that action.
    pub fn start(settings: Settings, environment_arg: Option<&str>) -> (r: Result<
        (Pipeline, Action),
        PipelineError,
    >)
        ensures
            match start_spec(settings, arg_view(environment_arg)) {
                Err(e) => r == Err::<(Pipeline, Action), PipelineError>(e),
                Ok((c, n)) => r is Ok && r->Ok_0.0 == (Pipeline {
                    config: c,
                    default_environment: n,
                    phase: Phase::AwaitingIdentity,
                    dispatched: false,
                }) && r->Ok_0.1 == (Action::Authenticate { token: c.token }),
            },
            r is Ok ==> r->Ok_0.0.wf(),
    {
        let config = match Config::from_settings(settings) {
            Ok(c) => c,
            Err(e) => return Err(e),
        };
        let default_environment = match environment_arg {
            None => 1,
            Some(s) => match parse_environment_number(s) {
                Ok(n) => n,
                Err(e) => return Err(PipelineError::InvalidEnvironmentArgument(e)),
            },
        };
        let token = config.token.clone();
        Ok(
            (
                Pipeline { config, default_environment, phase: Phase::AwaitingIdentity, dispatched: false },
                Action::Authenticate { token },
            ),
        )
    }

    fn failed(
        config: Config,
        default_environment: u64,
        dispatched: bool,
        e: PipelineError,
        Ghost(p): Ghost<Pipeline>,
    ) -> (r: (Pipeline, Action))
        requires
            p.config == config,
            p.default_environment == default_environment,
            p.dispatched == dispatched,
        ensures
            fails_with(p, r.0, r.1, e),
    {
        (Pipeline { config, default_environment, phase: Phase::Failed, dispatched }, Action::Fail(e))
    }

    fn on_identity(
        config: Config,
        default_environment: u64,
        dispatched: bool,
        res: Result<String, String>,
        Ghost(p): Ghost<Pipeline>,
    ) -> (r: (Pipeline, Action))
        requires
            p.config == config,
            p.default_environment == default_environment,
            p.dispatched == dispatched,
            1 <= default_environment <= ENVIRONMENT_COUNT,
        ensures
            identity_step(p, res, r.0, r.1),
    {
        match res {
            Ok(login) => {
                let query = search_query(login.as_str(), config.owner.as_str(), config.repo.as_str());
                let environments = environment_labels();
                let default_index = (default_environment - 1) as usize;
                (
                    Pipeline {
                        config,
                        default_environment,
                        phase: Phase::AwaitingJoin { identity: login },
                        dispatched,
                    },
                    Action::FetchAndChooseEnvironment { query, environments, default_index },
                )
            },
            Err(detail) => Self::failed(
                config,
                default_environment,
                dispatched,
                PipelineError::AuthenticationFailed { detail },
                Ghost(p),
            ),
        }
    }

    fn on_join(
        config: Config,
        default_environment: u64,
        dispatched: bool,
        identity: String,
        environment: Option<usize>,
        fetched: Result<Vec<Option<PullRequestCandidate>>, String>,
        Ghost(p): Ghost<Pipeline>,
    ) -> (r: (Pipeline, Action))
        requires
            p.config == config,
            p.default_environment == default_environment,
            p.dispatched == dispatched,
        ensures
            join_step(p, identity, environment, fetched, r.0, r.1),
    {
        match environment {
            None => Self::failed(
                config,
                default_environment,
                dispatched,
                PipelineError::UserCancelled,
                Ghost(p),
            ),
            Some(index) => {
                if index as u64 >= ENVIRONMENT_COUNT {
                    return Self::failed(
                        config,
                        default_environment,
                        dispatched,
                        PipelineError::InvalidSelection,
                        Ghost(p),
                    );
                }
                match fetched {
                    Err(detail) => Self::failed(
                        config,
                        default_environment,
                        dispatched,
                        PipelineError::RemoteRequestFailed {
                            call: RemoteCall::SearchPullRequests,
                            detail,
                        },
                        Ghost(p),
                    ),
                    Ok(list) => {
                        let candidates = authored_candidates(&list, identity.as_str());
                        if candidates.len() == 0 {
                            (
                                Pipeline { config, default_environment, phase: Phase::Done, dispatched },
                                Action::Finish(Outcome::NoCandidates),
                            )
                        } else {
                            let labels = candidate_labels(&candidates);
                            let target = environment_label((index + 1) as u64);
                            (
                                Pipeline {
                                    config,
                                    default_environment,
                                    phase: Phase::AwaitingPullRequestChoice { candidates, target },
                                    dispatched,
                                },
                                Action::ChoosePullRequest { labels },
                            )
                        }
                    },
                }
            },
        }
    }

    fn on_pull_request_chosen(
        config: Config,
        default_environment: u64,
        dispatched: bool,
        candidates: Vec<PullRequestCandidate>,
        target: String,
        choice: Option<usize>,
        Ghost(p): Ghost<Pipeline>,
    ) -> (r: (Pipeline, Action))
        requires
            p.config == config,
            p.default_environment == default_environment,
            p.dispatched == dispatched,
        ensures
            choice_step(p, candidates, target, choice, r.0, r.1),
    {
        match choice {
            None => Self::failed(
                config,
                default_environment,
                dispatched,
                PipelineError::UserCancelled,
                Ghost(p),
            ),
            Some(k) => {
                if k >= candidates.len() {
                    return Self::failed(
                        config,
                        default_environment,
                        dispatched,
                        PipelineError::InvalidSelection,
                        Ghost(p),
                    );
                }
                let branch = candidates[k].branch_ref.clone();
                let listed = branch.clone();
                (
                    Pipeline {
                        config,
                        default_environment,
                        phase: Phase::AwaitingCommits { branch, target },
                        dispatched,
                    },
                    Action::ListCommits { branch: listed },
                )
            },
        }
    }

    fn issue_dispatch(
        config: Config,
        default_environment: u64,
        dispatched: bool,
        workflow_id: &str,
        branch: String,
        commit: CommitRef,
        target: String,
        Ghost(p): Ghost<Pipeline>,
    ) -> (r: (Pipeline, Action))
        requires
            p.config == config,
            p.default_environment == default_environment,
            p.dispatched == dispatched,
        ensures
            dispatch_issued(p, workflow_id@, branch@, commit.short_sha@, target@, r.0, r.1),
    {
        let built = build_dispatch_request(
            config.owner.as_str(),
            config.repo.as_str(),
            workflow_id,
            branch.as_str(),
            &commit,
            target.as_str(),
        );
        match built {
            Err(e) => Self::failed(config, default_environment, dispatched, e, Ghost(p)),
            Ok(request) => {
                let sent = request.duplicate();
                (
                    Pipeline {
                        config,
                        default_environment,
                        phase: Phase::AwaitingDispatch { request },
                        dispatched: true,
                    },
                    Action::Dispatch(sent),
                )
            },
        }
    }

    fn on_commits(
        config: Config,
        default_environment: u64,
        dispatched: bool,
        branch: String,
        target: String,
        res: Result<Vec<String>, String>,
        Ghost(p): Ghost<Pipeline>,
    ) -> (r: (Pipeline, Action))
        requires
            p.config == config,
            p.default_environment == default_environment,
            p.dispatched == dispatched,
        ensures
            commits_step(p, branch, target, res, r.0, r.1),
    {
        match res {
            Err(detail) => Self::failed(
                config,
                default_environment,
                dispatched,
                PipelineError::RemoteRequestFailed { call: RemoteCall::ListCommits, detail },
                Ghost(p),
            ),
            Ok(shas) => match latest_commit(&shas) {
                Err(e) => Self::failed(config, default_environment, dispatched, e, Ghost(p)),
                Ok(commit) => {
                    let configured: Option<String> = match &config.workflow_id {
                        Some(w) => Some(w.clone()),
                        None => None,
                    };
                    match configured {
                        Some(w) => Self::issue_dispatch(
                            config,
                            default_environment,
                            dispatched,
                            w.as_str(),
                            branch,
                            commit,
                            target,
                            Ghost(p),
                        ),
                        None => (
                            Pipeline {
                                config,
                                default_environment,
                                phase: Phase::AwaitingWorkflows { branch, commit, target },
                                dispatched,
                            },
                            Action::ListWorkflows,
                        ),
                    }
                },
            },
        }
    }

    fn on_workflows(
        config: Config,
        default_environment: u64,
        dispatched: bool,
        branch: String,
        commit: CommitRef,
        target: String,
        res: Result<Vec<WorkflowDescriptor>, String>,
        Ghost(p): Ghost<Pipeline>,
    ) -> (r: (Pipeline, Action))
        requires
            p.config == config,
            p.default_environment == default_environment,
            p.dispatched == dispatched,
        ensures
            workflows_step(p, branch, commit, target, res, r.0, r.1),
    {
        match res {
            Err(detail) => Self::failed(
                config,
                default_environment,
                dispatched,
                PipelineError::RemoteRequestFailed { call: RemoteCall::ListWorkflows, detail },
                Ghost(p),
            ),
            Ok(workflows) => {
                if workflows.len() == 0 {
                    return Self::failed(
                        config,
                        default_environment,
                        dispatched,
                        PipelineError::NoWorkflows,
                        Ghost(p),
                    );
                }
                let labels = labels_of_workflows(&workflows);
                (
                    Pipeline {
                        config,
                        default_environment,
                        phase: Phase::AwaitingWorkflowChoice { branch, commit, target, workflows },
                        dispatched,
                    },
                    Action::ChooseWorkflow { labels },
                )
            },
        }
    }

    fn on_workflow_chosen(
        config: Config,
        default_environment: u64,
        dispatched: bool,
        branch: String,
        commit: CommitRef,
        target: String,
        workflows: Vec<WorkflowDescriptor>,
        choice: Option<usize>,
        Ghost(p): Ghost<Pipeline>,
    ) -> (r: (Pipeline, Action))
        requires
            p.config == config,
            p.default_environment == default_environment,
            p.dispatched == dispatched,
        ensures
            workflow_choice_step(p, branch, commit, target, workflows, choice, r.0, r.1),
    {
        match choice {
            None => Self::failed(
                config,
                default_environment,
                dispatched,
                PipelineError::UserCancelled,
                Ghost(p),
            ),
            Some(k) => {
                if k >= workflows.len() {
                    return Self::failed(
                        config,
                        default_environment,
                        dispatched,
                        PipelineError::InvalidSelection,
                        Ghost(p),
                    );
                }
                let workflow_id = workflows[k].id.clone();
                Self::issue_dispatch(
                    config,
                    default_environment,
                    dispatched,
                    workflow_id.as_str(),
                    branch,
                    commit,
                    target,
                    Ghost(p),
                )
            },
        }
    }

    fn on_dispatched(
        config: Config,
        default_environment: u64,
        dispatched: bool,
        request: DispatchRequest,
        res: Result<(), String>,
        Ghost(p): Ghost<Pipeline>,
    ) -> (r: (Pipeline, Action))
        requires
            p.config == config,
            p.default_environment == default_environment,
            p.dispatched == dispatched,
        ensures
            dispatched_step(p, request, res, r.0, r.1),
    {
        match res {
            Err(detail) => Self::failed(
                config,
                default_environment,
                dispatched,
                PipelineError::RemoteRequestFailed { call: RemoteCall::DispatchWorkflow, detail },
                Ghost(p),
            ),
            Ok(()) => {
                let DispatchRequest { git_ref, commit_sha, target, .. } = request;
                (
                    Pipeline { config, default_environment, phase: Phase::Done, dispatched },
                    Action::Finish(Outcome::Dispatched { branch: git_ref, commit_sha, target }),
                )
            },
        }
    }

    /// Takes the outcome of the last action and hands out the next one.
    pub fn step(self, event: Event) -> (r: (Pipeline, Action))
        requires
            self.wf(),
        ensures
            step_spec(self, event, r.0, r.1),
            r.0.wf(),
    {
        let ghost p = self;
        let Pipeline { config, default_environment, phase, dispatched } = self;
        match (phase, event) {
            (Phase::AwaitingIdentity, Event::Identity(res)) => Self::on_identity(
                config,
                default_environment,
                dispatched,
                res,
                Ghost(p),
            ),
            (Phase::AwaitingJoin { identity }, Event::Joined { environment, fetched }) =>
                Self::on_join(
                config,
                default_environment,
                dispatched,
                identity,
                environment,
                fetched,
                Ghost(p),
            ),
            (
                Phase::AwaitingPullRequestChoice { candidates, target },
                Event::PullRequestChosen(choice),
            ) => Self::on_pull_request_chosen(
                config,
                default_environment,
                dispatched,
                candidates,
                target,
                choice,
                Ghost(p),
            ),
            (Phase::AwaitingCommits { branch, target }, Event::Commits(res)) => Self::on_commits(
                config,
                default_environment,
                dispatched,
                branch,
                target,
                res,
                Ghost(p),
            ),
            (Phase::AwaitingWorkflows { branch, commit, target }, Event::Workflows(res)) =>
                Self::on_workflows(
                config,
                default_environment,
                dispatched,
                branch,
                commit,
                target,
                res,
                Ghost(p),
            ),
            (
                Phase::AwaitingWorkflowChoice { branch, commit, target, workflows },
                Event::WorkflowChosen(choice),
            ) => Self::on_workflow_chosen(
                config,
                default_environment,
                dispatched,
                branch,
                commit,
                target,
                workflows,
                choice,
                Ghost(p),
            ),
            (Phase::AwaitingDispatch { request }, Event::Dispatched(res)) => Self::on_dispatched(
                config,
                default_environment,
                dispatched,
                request,
                res,
                Ghost(p),
            ),
            (phase, _) => (
                Pipeline { config, default_environment, phase, dispatched },
                Action::Ignore,
            ),
        }
    }
}

/// A run that has ended, successfully or not, takes no further action:
/// every event is ignored.
pub proof fn lemma_ended_run_is_final(p: Pipeline, e: Event, q: Pipeline, a: Action)
    requires
        p.phase == Phase::Done || p.phase == Phase::Failed,
        step_spec(p, e, q, a),
    ensures
        q == p,
        a == Action::Ignore,
{
}

/// When the concurrent phase yields no candidate, the run ends successfully
/// with nothing to do: no commits are listed, no workflow is resolved and
/// nothing is dispatched, then or later.
pub proof fn lemma_no_candidates_ends_run(
    p: Pipeline,
    environment: Option<usize>,
    fetched: Result<Vec<Option<PullRequestCandidate>>, String>,
    q: Pipeline,
    a: Action,
)
    requires
        p.phase is AwaitingJoin,
        environment is Some && environment->Some_0 < ENVIRONMENT_COUNT,
        fetched is Ok,
        authored_candidates_spec(fetched->Ok_0@, p.phase->AwaitingJoin_identity@).len() == 0,
        step_spec(p, Event::Joined { environment, fetched }, q, a),
    ensures
        a == Action::Finish(Outcome::NoCandidates),
        q.phase == Phase::Done,
        forall|e2: Event, q2: Pipeline, a2: Action|
            step_spec(q, e2, q2, a2) ==> q2 == q && a2 == Action::Ignore,
{
}

/// A branch without commits ends the run with `EmptyResult`, and nothing is
/// dispatched.
pub proof fn lemma_no_commits_fails(p: Pipeline, shas: Vec<String>, q: Pipeline, a: Action)
    requires
        p.phase is AwaitingCommits,
        shas@.len() == 0,
        step_spec(p, Event::Commits(Ok(shas)), q, a),
    ensures
        a == Action::Fail(PipelineError::EmptyResult),
        q.phase == Phase::Failed,
        !(a is Dispatch),
{
}

/// Along a run from `Pipeline::start`, the dispatch is handed out at most
/// once: only by a pipeline that has not dispatched yet, which then records
/// it and never hands it out again. A dispatched request always carries
/// exactly the inputs `commit_sha` and `target`, both non-empty, on a
/// non-empty branch.
pub proof fn lemma_dispatch_at_most_once(p: Pipeline, e: Event, q: Pipeline, a: Action)
    requires
        p.wf(),
        step_spec(p, e, q, a),
    ensures
        a is Dispatch ==> !p.dispatched && q.dispatched,
        p.dispatched ==> q.dispatched && !(a is Dispatch),
        a is Dispatch ==> inputs_wf(inputs_spec(a->Dispatch_0)) && a->Dispatch_0.git_ref@.len()
            > 0,
        a is Dispatch ==> q.phase == (Phase::AwaitingDispatch { request: a->Dispatch_0 }),
{
    reveal_strlit("commit_sha");
    reveal_strlit("target");
}

/// `ps`, `es` and `acts` record a run: each pipeline after the first is the
/// step of the one before it on the event at that position, which handed out
/// the action at that position.
pub open spec fn is_run(ps: Seq<Pipeline>, es: Seq<Event>, acts: Seq<Action>) -> bool {
    &&& ps.len() == es.len() + 1
    &&& acts.len() == es.len()
    &&& forall|i: int| 0 <= i < es.len() ==> #[trigger] step_spec(ps[i], es[i], ps[i + 1], acts[i])
}

/// Every step keeps the pipeline well formed.
pub proof fn lemma_step_keeps_wf(p: Pipeline, e: Event, q: Pipeline, a: Action)
    requires
        p.wf(),
        step_spec(p, e, q, a),
    ensures
        q.wf(),
{
}

proof fn lemma_run_wf(ps: Seq<Pipeline>, es: Seq<Event>, acts: Seq<Action>, k: int)
    requires
        is_run(ps, es, acts),
        ps[0].wf(),
        0 <= k < ps.len(),
    ensures
        ps[k].wf(),
    decreases k,
{
    if k > 0 {
        let m = k - 1;
        lemma_run_wf(ps, es, acts, m);
        assert(step_spec(ps[m], es[m], ps[m + 1], acts[m]));
        lemma_step_keeps_wf(ps[m], es[m], ps[m + 1], acts[m]);
    }
}

proof fn lemma_run_stays_dispatched(
    ps: Seq<Pipeline>,
    es: Seq<Event>,
    acts: Seq<Action>,
    i: int,
    k: int,
)
    requires
        is_run(ps, es, acts),
        ps[0].wf(),
        0 <= i < k < ps.len(),
        acts[i] is Dispatch,
    ensures
        ps[k].dispatched,
    decreases k,
{
    let m = k - 1;
    lemma_run_wf(ps, es, acts, m);
    assert(step_spec(ps[m], es[m], ps[m + 1], acts[m]));
    lemma_dispatch_at_most_once(ps[m], es[m], ps[m + 1], acts[m]);
    if m > i {
        lemma_run_stays_dispatched(ps, es, acts, i, m);
    }
}

/// In a run from a well-formed pipeline (as `Pipeline::start` returns one),
/// at most one action is a dispatch.
pub proof fn lemma_run_dispatches_at_most_once(
    ps: Seq<Pipeline>,
    es: Seq<Event>,
    acts: Seq<Action>,
    i: int,
    j: int,
)
    requires
        is_run(ps, es, acts),
        ps[0].wf(),
        0 <= i < j < acts.len(),
        acts[i] is Dispatch,
    ensures
        !(acts[j] is Dispatch),
{
    lemma_run_stays_dispatched(ps, es, acts, i, j);
    lemma_run_wf(ps, es, acts, j);
    assert(step_spec(ps[j], es[j], ps[j + 1], acts[j]));
    lemma_dispatch_at_most_once(ps[j], es[j], ps[j + 1], acts[j]);
}

/// An argument that is not an environment number stops the run before it
/// starts, so before any remote call; a valid one starts it.
pub proof fn lemma_argument_checked_before_start(settings: Settings, arg: Seq<char>)
    requires
        config_spec(settings) is Ok,
    ensures
        parse_environment_spec(arg) is Err ==> start_spec(settings, Some(arg)) == Err::<
            (Config, u64),
            PipelineError,
        >(PipelineError::InvalidEnvironmentArgument(parse_environment_spec(arg)->Err_0)),
        parse_environment_spec(arg) is Ok ==> start_spec(settings, Some(arg)) is Ok,
{
}

} // verus!
