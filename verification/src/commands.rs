//! The decisions behind each subcommand of the command-line tool.

pub mod config;
pub mod gen;
pub mod setup;
