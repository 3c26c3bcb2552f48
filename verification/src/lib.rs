//! Planning and validation logic of `ptto`, a CLI that deploys single-binary web apps to
//! one VPS over SSH.
//!
//! A command is resolved against the optional `.ptto.toml` configuration, its values are
//! checked, and it is planned into steps (print a line, create a local directory, run
//! `go build`, run `ssh` or `scp`). The program around this library carries the steps out.

pub mod cli;
pub mod commands;
pub mod config;
pub mod error;
pub mod plan;
pub mod remote;
pub mod shell;
pub mod ssh;
pub mod text;
pub mod validate;
