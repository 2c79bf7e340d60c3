//! Build-monitoring core: per-repository commit monitors, a fail-fast command
//! executor and a shared store of build state, with their contracts.
pub mod config;
pub mod project_detector;
pub mod models;
pub mod executor;
pub mod ci_runner;
pub mod repository_manager;
pub mod cli;
