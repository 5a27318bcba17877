//! Deployment console core: project records, deployment strategies that turn
//! an action request into a chain of external commands, and the bookkeeping
//! of the executor that runs those chains.
pub mod actions;
pub mod config;
pub mod executor;
pub mod iolog;
pub mod plan;
pub mod project;
pub mod text;
