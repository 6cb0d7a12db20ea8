//! Per-project container launching for the opencode CLI: the decisions and
//! the text that the launcher computes, with their contracts.

pub mod text;
pub mod util;
pub mod cli;
pub mod project;
pub mod port;
pub mod container;
pub mod output;
pub mod completion;
pub mod json;
pub mod entries;
pub mod devcontainer;
pub mod web;
pub mod launch;
pub mod setup;
