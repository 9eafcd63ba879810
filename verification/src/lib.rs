//! Self-updating command line companion for a mod repository: release
//! discovery, artifact extraction and the two-process binary handoff, with the
//! manifest and configuration rules that the commands rely on.

pub mod archive;
pub mod commands;
pub mod config;
pub mod error;
pub mod globals;
pub mod grammar;
pub mod handoff;
pub mod manifest;
pub mod paths;
pub mod precedence;
pub mod release;
pub mod text;
pub mod updater;
pub mod utils;
pub mod version;
