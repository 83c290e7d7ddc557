//! The steps that a run is made of.

use crate::crates::{Crate, CrateView};
use crate::experiments::Mode;
use crate::text::concat2;
use crate::toolchain::{Toolchain, ToolchainView};
use vstd::prelude::*;

verus! {

/// The directory in which a package is built.
pub struct BuildDirectory;

/// A build in progress.
pub struct Build;

/// One step: what is done, with which toolchain, and whether its output is
/// held back.
#[derive(Debug)]
pub enum TaskStep {
    BuildAndTest { tc: Toolchain, quiet: bool },
    BuildOnly { tc: Toolchain, quiet: bool },
    CheckOnly { tc: Toolchain, quiet: bool },
    Clippy { tc: Toolchain, quiet: bool },
    Rustdoc { tc: Toolchain, quiet: bool },
    UnstableFeatures { tc: Toolchain },
    Fix { tc: Toolchain, quiet: bool },
}

pub struct TaskStepView {
    pub mode: Mode,
    pub tc: ToolchainView,
    pub quiet: bool,
}

impl View for TaskStep {
    type V = TaskStepView;

    open spec fn view(&self) -> TaskStepView {
        match *self {
            TaskStep::BuildAndTest { tc, quiet } => TaskStepView {
                mode: Mode::BuildAndTest,
                tc: tc@,
                quiet,
            },
            TaskStep::BuildOnly { tc, quiet } => TaskStepView { mode: Mode::BuildOnly, tc: tc@, quiet },
            TaskStep::CheckOnly { tc, quiet } => TaskStepView { mode: Mode::CheckOnly, tc: tc@, quiet },
            TaskStep::Clippy { tc, quiet } => TaskStepView { mode: Mode::Clippy, tc: tc@, quiet },
            TaskStep::Rustdoc { tc, quiet } => TaskStepView { mode: Mode::Rustdoc, tc: tc@, quiet },
            TaskStep::UnstableFeatures { tc } => TaskStepView {
                mode: Mode::UnstableFeatures,
                tc: tc@,
                quiet: false,
            },
            TaskStep::Fix { tc, quiet } => TaskStepView { mode: Mode::Fix, tc: tc@, quiet },
        }
    }
}

impl TaskStepView {
    /// What the step does, in words.
    pub open spec fn verb(self) -> Seq<char> {
        match self.mode {
            Mode::BuildAndTest => "build and test with "@,
            Mode::BuildOnly => "build with "@,
            Mode::CheckOnly => "check with "@,
            Mode::Clippy => "clippy with "@,
            Mode::Rustdoc => "rustdoc with "@,
            Mode::UnstableFeatures => "unstable features with "@,
            Mode::Fix => "fix with "@,
        }
    }

    /// The step in words: what it does, and the toolchain.
    pub open spec fn text(self) -> Seq<char> {
        self.verb() + self.tc.text()
    }
}

impl TaskStep {
    /// The step that an experiment of the given mode takes with `tc`. The
    /// search for unstable features never holds its output back.
    pub fn for_mode(mode: Mode, tc: Toolchain, quiet: bool) -> (r: TaskStep)
        ensures
            r@ == (TaskStepView {
                mode,
                tc: tc@,
                quiet: quiet && mode != Mode::UnstableFeatures,
            }),
    {
        match mode {
            Mode::BuildAndTest => TaskStep::BuildAndTest { tc, quiet },
            Mode::BuildOnly => TaskStep::BuildOnly { tc, quiet },
            Mode::CheckOnly => TaskStep::CheckOnly { tc, quiet },
            Mode::Clippy => TaskStep::Clippy { tc, quiet },
            Mode::Rustdoc => TaskStep::Rustdoc { tc, quiet },
            Mode::UnstableFeatures => TaskStep::UnstableFeatures { tc },
            Mode::Fix => TaskStep::Fix { tc, quiet },
        }
    }

    pub fn toolchain(&self) -> (r: &Toolchain)
        ensures
            r@ == self@.tc,
    {
        match self {
            TaskStep::BuildAndTest { tc, .. } => tc,
            TaskStep::BuildOnly { tc, .. } => tc,
            TaskStep::CheckOnly { tc, .. } => tc,
            TaskStep::Clippy { tc, .. } => tc,
            TaskStep::Rustdoc { tc, .. } => tc,
            TaskStep::UnstableFeatures { tc } => tc,
            TaskStep::Fix { tc, .. } => tc,
        }
    }

    pub fn is_quiet(&self) -> (r: bool)
        ensures
            r == self@.quiet,
    {
        match self {
            TaskStep::BuildAndTest { quiet, .. } => *quiet,
            TaskStep::BuildOnly { quiet, .. } => *quiet,
            TaskStep::CheckOnly { quiet, .. } => *quiet,
            TaskStep::Clippy { quiet, .. } => *quiet,
            TaskStep::Rustdoc { quiet, .. } => *quiet,
            TaskStep::UnstableFeatures { .. } => false,
            TaskStep::Fix { quiet, .. } => *quiet,
        }
    }

    /// The step in words.
    pub fn to_string(&self) -> (r: String)
        ensures
            r@ == self@.text(),
    {
        let verb = match self {
            TaskStep::BuildAndTest { .. } => "build and test with ",
            TaskStep::BuildOnly { .. } => "build with ",
            TaskStep::CheckOnly { .. } => "check with ",
            TaskStep::Clippy { .. } => "clippy with ",
            TaskStep::Rustdoc { .. } => "rustdoc with ",
            TaskStep::UnstableFeatures { .. } => "unstable features with ",
            TaskStep::Fix { .. } => "fix with ",
        };
        let tc = self.toolchain().to_string();
        concat2(verb, tc.as_str())
    }
}

/// One step for one package.
#[derive(Debug)]
pub struct Task {
    pub krate: Crate,
    pub step: TaskStep,
}

impl Task {
    pub fn new(krate: Crate, step: TaskStep) -> (r: Self)
        ensures
            r.krate == krate,
            r.step == step,
    {
        Task { krate, step }
    }

    /// The task in words: the step, and the package.
    pub open spec fn spec_text(&self) -> Seq<char> {
        self.step@.text() + " for crate "@ + self.krate@.text()
    }

    /// The task in words.
    pub fn to_string(&self) -> (r: String)
        ensures
            r@ == self.spec_text(),
    {
        let mut s = self.step.to_string();
        let k = self.krate.to_string();
        s.append(" for crate ");
        s.append(k.as_str());
        s
    }
}

} // verus!
