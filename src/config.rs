//! Configuration read once at start-up and handed to the pipeline.
use vstd::prelude::*;
use crate::error::{ConfigVar, PipelineError};

verus! {

/// Raw configuration values, each absent when its variable is not set.
#[derive(Debug, Clone, PartialEq, Eq)]
pub struct Settings {
    pub token: Option<String>,
    pub org: Option<String>,
    pub repo: Option<String>,
    /// A statically configured workflow; when absent the workflows are
    /// listed remotely and the user picks one.
    pub workflow_id: Option<String>,
}

/// Checked configuration: every required value is present.
#[derive(Debug, Clone, PartialEq, Eq)]
pub struct Config {
    pub token: String,
    pub owner: String,
    pub repo: String,
    pub workflow_id: Option<String>,
}

/// What `Config::from_settings` returns: the first missing variable, in the
/// order token, organisation, repository, or the configuration.
pub open spec fn config_spec(s: Settings) -> Result<Config, PipelineError> {
    if s.token is None {
        Err(PipelineError::ConfigurationMissing(ConfigVar::Token))
    } else if s.org is None {
        Err(PipelineError::ConfigurationMissing(ConfigVar::Org))
    } else if s.repo is None {
        Err(PipelineError::ConfigurationMissing(ConfigVar::Repo))
    } else {
        Ok(
            Config {
                token: s.token->Some_0,
                owner: s.org->Some_0,
                repo: s.repo->Some_0,
                workflow_id: s.workflow_id,
            },
        )
    }
}

impl Config {
    pub fn from_settings(s: Settings) -> (r: Result<Config, PipelineError>)
        ensures
            r == config_spec(s),
    {
        let Settings { token, org, repo, workflow_id } = s;
        match (token, org, repo) {
            (None, _, _) => Err(PipelineError::ConfigurationMissing(ConfigVar::Token)),
            (Some(_), None, _) => Err(PipelineError::ConfigurationMissing(ConfigVar::Org)),
            (Some(_), Some(_), None) => Err(PipelineError::ConfigurationMissing(ConfigVar::Repo)),
            (Some(token), Some(owner), Some(repo)) => Ok(Config { token, owner, repo, workflow_id }),
        }
    }
}

} // verus!
