//! The commands and what is given with each.

use vstd::prelude::*;

verus! {

/// What is asked for on the command line.
#[derive(Debug, PartialEq, Eq)]
pub struct Cli {
    pub command: Commands,
}

/// The commands.
#[derive(Debug, PartialEq, Eq)]
pub enum Commands {
    /// Prepare this machine.
    PrepareLocal,
    /// Define an experiment.
    DefineEx {
        name: String,
        toolchain1: String,
        toolchain2: String,
        crate_select: String,
        mode: String,
        priority: i32,
    },
    /// Run an experiment on this machine.
    RunGraph { name: String, threads: usize },
    /// Write the report of an experiment.
    GenReport { name: String, output_dir: String },
    /// Serve requests.
    Server { port: u16, config: String },
    /// List the experiments.
    ListEx,
    /// Delete an experiment.
    DeleteEx { name: String },
    /// Give up an experiment.
    AbortEx { name: String },
}

/// The mode of an experiment that is defined without one.
pub const DEFAULT_MODE: &'static str = "build-and-test";

/// The port on which requests are served where none is given.
pub const DEFAULT_PORT: u16 = 3000;

/// The file that holds the settings where none is given.
pub const DEFAULT_CONFIG: &'static str = "config.toml";

impl Commands {
    /// Whether the command works on the store of experiments.
    pub open spec fn spec_needs_store(&self) -> bool {
        !(self is PrepareLocal || self is Server)
    }

    /// Whether the command works on the store of experiments.
    pub fn needs_store(&self) -> (r: bool)
        ensures
            r == self.spec_needs_store(),
    {
        match self {
            Commands::PrepareLocal => false,
            Commands::Server { .. } => false,
            _ => true,
        }
    }
}

} // verus!
