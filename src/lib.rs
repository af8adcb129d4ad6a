//! Applies one version-control subcommand to a list of repositories.
//!
//! The library holds the decisions: which identifiers a repository list
//! names, where each repository lives locally, what actually runs for it,
//! what is reported, and the work queue that the workers drain. Running
//! processes, threads and the terminal are left to the caller.
pub mod text;
pub mod resolver;
pub mod naming;
pub mod repo_list;
pub mod report;
pub mod config;
pub mod task;
pub mod queue;
