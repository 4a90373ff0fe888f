//! Why a pipeline run stops with a failure.
use vstd::prelude::*;
use crate::environment::ArgumentError;

verus! {

/// A required configuration variable.
#[derive(Debug, Clone, Copy, PartialEq, Eq, Structural)]
pub enum ConfigVar {
    Token,
    Org,
    Repo,
}

/// A remote call whose failure stops the pipeline.
#[derive(Debug, Clone, Copy, PartialEq, Eq, Structural)]
pub enum RemoteCall {
    SearchPullRequests,
    ListCommits,
    ListWorkflows,
    DispatchWorkflow,
}

/// A fatal failure of the pipeline. Each remote failure keeps the remote
/// side's own description in `detail`.
#[derive(Debug, Clone, PartialEq, Eq)]
pub enum PipelineError {
    /// A required configuration variable is absent.
    ConfigurationMissing(ConfigVar),
    /// The environment argument is not an environment number.
    InvalidEnvironmentArgument(ArgumentError),
    /// The identity lookup was rejected.
    AuthenticationFailed { detail: String },
    /// A search, list or dispatch call failed.
    RemoteRequestFailed { call: RemoteCall, detail: String },
    /// The selected branch has no commits.
    EmptyResult,
    /// The repository has no workflows to pick from.
    NoWorkflows,
    /// An interactive prompt was aborted.
    UserCancelled,
    /// A prompt answered with an index outside the list it was shown.
    InvalidSelection,
    /// A dispatch field (branch, commit, target) would have been empty.
    EmptyPayloadField,
}

/// The name of the variable in the process environment.
pub open spec fn var_name_spec(v: ConfigVar) -> Seq<char> {
    match v {
        ConfigVar::Token => "GITHUB_TOKEN"@,
        ConfigVar::Org => "GITHUB_ORG"@,
        ConfigVar::Repo => "GITHUB_REPO"@,
    }
}

impl ConfigVar {
    pub fn name(&self) -> (r: &'static str)
        ensures
            r@ == var_name_spec(*self),
    {
        match self {
            ConfigVar::Token => "GITHUB_TOKEN",
            ConfigVar::Org => "GITHUB_ORG",
            ConfigVar::Repo => "GITHUB_REPO",
        }
    }
}

/// The one-line remediation hint shown with each failure.
pub open spec fn hint_spec(e: PipelineError) -> Seq<char> {
    match e {
        PipelineError::ConfigurationMissing(_) => "required variable not found in environment"@,
        PipelineError::InvalidEnvironmentArgument(ArgumentError::NotANumber) =>
            "environment must be a number"@,
        PipelineError::InvalidEnvironmentArgument(ArgumentError::OutOfRange) =>
            "environment number out of range"@,
        PipelineError::AuthenticationFailed { .. } =>
            "Failed to fetch current user. Please check your GitHub token has correct permissions"@,
        PipelineError::RemoteRequestFailed { call: RemoteCall::SearchPullRequests, .. } =>
            "Failed to fetch PRs. Please check repository name and permissions"@,
        PipelineError::RemoteRequestFailed { call: RemoteCall::ListCommits, .. } =>
            "Failed to list commits. Please check repository name and permissions"@,
        PipelineError::RemoteRequestFailed { call: RemoteCall::ListWorkflows, .. } =>
            "Failed to list workflows. Please check repository name and permissions"@,
        PipelineError::RemoteRequestFailed { call: RemoteCall::DispatchWorkflow, .. } =>
            "Failed to trigger workflow. Please check workflow inputs match your workflow file."@,
        PipelineError::EmptyResult => "No commits found in branch"@,
        PipelineError::NoWorkflows => "No workflows found in repository"@,
        PipelineError::UserCancelled => "Selection cancelled"@,
        PipelineError::InvalidSelection => "Selection is not one of the options shown"@,
        PipelineError::EmptyPayloadField => "Refusing to send an empty branch, commit or target"@,
    }
}

impl PipelineError {
    /// The remediation hint for this failure.
    pub fn hint(&self) -> (r: &'static str)
        ensures
            r@ == hint_spec(*self),
    {
        match self {
            PipelineError::ConfigurationMissing(_) => "required variable not found in environment",
            PipelineError::InvalidEnvironmentArgument(ArgumentError::NotANumber) =>
                "environment must be a number",
            PipelineError::InvalidEnvironmentArgument(ArgumentError::OutOfRange) =>
                "environment number out of range",
            PipelineError::AuthenticationFailed { .. } =>
                "Failed to fetch current user. Please check your GitHub token has correct permissions",
            PipelineError::RemoteRequestFailed { call: RemoteCall::SearchPullRequests, .. } =>
                "Failed to fetch PRs. Please check repository name and permissions",
            PipelineError::RemoteRequestFailed { call: RemoteCall::ListCommits, .. } =>
                "Failed to list commits. Please check repository name and permissions",
            PipelineError::RemoteRequestFailed { call: RemoteCall::ListWorkflows, .. } =>
                "Failed to list workflows. Please check repository name and permissions",
            PipelineError::RemoteRequestFailed { call: RemoteCall::DispatchWorkflow, .. } =>
                "Failed to trigger workflow. Please check workflow inputs match your workflow file.",
            PipelineError::EmptyResult => "No commits found in branch",
            PipelineError::NoWorkflows => "No workflows found in repository",
            PipelineError::UserCancelled => "Selection cancelled",
            PipelineError::InvalidSelection => "Selection is not one of the options shown",
            PipelineError::EmptyPayloadField => "Refusing to send an empty branch, commit or target",
        }
    }
}

} // verus!
