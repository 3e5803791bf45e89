//! A post-build helper: reads `--name <TEXT> [--build]`, checks the project
//! layout step by step, and renames the release binary to
//! `{name}-{os}-{version}`.
//!
//! The parser and the order of the checks are verified here; the caller
//! performs the filesystem queries, the build and the rename.
pub mod cli;
pub mod pipeline;

pub use cli::{missing_arg_err, Cli, CliParseError};
pub use pipeline::{Action, Config, Event, InitCheckError, Session, Stage};
