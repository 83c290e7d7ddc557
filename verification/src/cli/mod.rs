//! The command line: what can be asked for on it.

pub mod args;
pub mod commands;
