//! Verified decision logic for dispatching a CI workflow run against one of
//! the caller's own open pull requests: configuration checks, argument
//! validation, candidate filtering, commit resolution, payload construction
//! and the step function of the fetch-and-select pipeline.
pub mod text;
pub mod environment;
pub mod error;
pub mod config;
pub mod commit;
pub mod candidate;
pub mod payload;
pub mod pipeline;
