//! The commands of the program: their options and what they decide.

pub mod config;
pub mod init;
pub mod migrate;
pub mod publish;
pub mod update;
