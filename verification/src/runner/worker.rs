//! The workers of a run and the watch over the disk.

use crate::crates::{Crate, CrateView};
use crate::experiments::Experiment;
use crate::results::TestResult;
use crate::toolchain::Toolchain;
use crate::Fallible;
use vstd::prelude::*;

verus! {

/// The place in which packages are built.
pub struct Workspace;

/// Where the outcome of each step of a run is handed to. Whoever uses a
/// run says what is done with the outcomes.
pub trait RecordProgress {
    fn record_progress(
        &mut self,
        ex: &Experiment,
        krate: &Crate,
        toolchain: &Toolchain,
        log: &[u8],
        result: &TestResult,
        version: Option<(&Crate, &Crate)>,
    ) -> Fallible<()>;
}

/// The watch over the disk: how full the disk may get, how many workers
/// there are and how many of them are idle, and whether the workers are
/// held back.
#[derive(Debug, Clone, Copy, PartialEq, Eq, Structural)]
pub struct DiskSpaceWatcher {
    /// The seconds between two looks at the disk.
    pub interval_secs: u64,
    /// The part of the disk, in percent, above which the workers are held
    /// back.
    pub threshold_percent: u8,
    pub worker_count: usize,
    /// The workers that wait.
    pub idle_workers: usize,
    /// The workers that have no more work.
    pub permanent_idle_workers: usize,
    pub stop_requested: bool,
    /// Whether the workers are held back.
    pub paused: bool,
}

impl DiskSpaceWatcher {
    /// A watch that looks at the disk every `interval_secs` seconds and
    /// holds the workers back while more than `threshold_percent` percent
    /// of it are used. No worker is idle yet.
    pub fn new(interval_secs: u64, threshold_percent: u8, worker_count: usize) -> (r: Self)
        ensures
            r == (DiskSpaceWatcher {
                interval_secs,
                threshold_percent,
                worker_count,
                idle_workers: 0,
                permanent_idle_workers: 0,
                stop_requested: false,
                paused: false,
            }),
    {
        DiskSpaceWatcher {
            interval_secs,
            threshold_percent,
            worker_count,
            idle_workers: 0,
            permanent_idle_workers: 0,
            stop_requested: false,
            paused: false,
        }
    }

    /// Asks the watch to end.
    pub fn stop(&mut self)
        ensures
            *final(self) == (DiskSpaceWatcher { stop_requested: true, ..*old(self) }),
    {
        self.stop_requested = true;
    }

    /// Takes note of how full the disk is, in percent, and says whether
    /// the workers are held back from now on: they are while more of the
    /// disk is used than the watch allows.
    pub fn observe(&mut self, usage_percent: u8) -> (r: bool)
        ensures
            r == (usage_percent > old(self).threshold_percent),
            *final(self) == (DiskSpaceWatcher { paused: r, ..*old(self) }),
    {
        self.paused = usage_percent > self.threshold_percent;
        self.paused
    }

    /// Counts a worker as idle: for good where it has no more work, for
    /// now where it waits.
    pub fn worker_idle(&mut self, permanent: bool)
        requires
            permanent ==> old(self).permanent_idle_workers < usize::MAX,
            !permanent ==> old(self).idle_workers < usize::MAX,
        ensures
            *final(self) == if permanent {
                DiskSpaceWatcher {
                    permanent_idle_workers: (old(self).permanent_idle_workers + 1) as usize,
                    ..*old(self)
                }
            } else {
                DiskSpaceWatcher {
                    idle_workers: (old(self).idle_workers + 1) as usize,
                    ..*old(self)
                }
            },
    {
        if permanent {
            self.permanent_idle_workers = self.permanent_idle_workers + 1;
        } else {
            self.idle_workers = self.idle_workers + 1;
        }
    }

    /// Counts a worker that waited as at work again.
    pub fn worker_active(&mut self)
        requires
            old(self).idle_workers > 0,
        ensures
            *final(self) == (DiskSpaceWatcher {
                idle_workers: (old(self).idle_workers - 1) as usize,
                ..*old(self)
            }),
    {
        self.idle_workers = self.idle_workers - 1;
    }

    /// Whether every worker is idle for good, so that the watch can end.
    pub fn all_workers_done(&self) -> (r: bool)
        ensures
            r == (self.permanent_idle_workers >= self.worker_count),
    {
        self.permanent_idle_workers >= self.worker_count
    }
}

/// What a worker is about to do.
#[derive(Debug)]
pub enum WorkerState {
    /// It has no package.
    NeedsPackage,
    /// It has a package, and the step with the toolchain at `toolchain`,
    /// which is 0 or 1, is the next.
    Testing { krate: Crate, toolchain: usize },
    /// It is idle for good.
    Finished,
}

pub enum WorkerStateView {
    NeedsPackage,
    Testing { krate: CrateView, toolchain: int },
    Finished,
}

impl View for WorkerState {
    type V = WorkerStateView;

    open spec fn view(&self) -> WorkerStateView {
        match *self {
            WorkerState::NeedsPackage => WorkerStateView::NeedsPackage,
            WorkerState::Testing { krate, toolchain } => WorkerStateView::Testing {
                krate: krate@,
                toolchain: toolchain as int,
            },
            WorkerState::Finished => WorkerStateView::Finished,
        }
    }
}

/// What a worker is told to do next.
#[derive(Debug, Clone, Copy, PartialEq, Eq, Structural)]
pub enum WorkerAction {
    /// Ask for the next package.
    TakePackage,
    /// Run the step with the toolchain at this index for the package in
    /// hand, and hand the outcome on.
    RunStep(usize),
    /// Wait until the workers are held back no longer, and ask again.
    Wait,
    /// End.
    Exit,
}

impl WorkerStateView {
    /// Whether the state is one that a worker can be in.
    pub open spec fn wf(self) -> bool {
        match self {
            WorkerStateView::Testing { toolchain, .. } => toolchain == 0 || toolchain == 1,
            _ => true,
        }
    }

    /// What a worker in this state does next. A worker that is done, or
    /// told to give up, ends. A worker with a fresh package waits while
    /// the workers are held back; once it has begun with a package, it goes
    /// on to the second toolchain.
    pub open spec fn next_action(self, paused: bool, aborted: bool) -> WorkerAction {
        if aborted {
            WorkerAction::Exit
        } else {
            match self {
                WorkerStateView::Finished => WorkerAction::Exit,
                WorkerStateView::NeedsPackage => WorkerAction::TakePackage,
                WorkerStateView::Testing { toolchain, .. } => if paused && toolchain == 0 {
                    WorkerAction::Wait
                } else {
                    WorkerAction::RunStep(toolchain as usize)
                },
            }
        }
    }

    /// The state after the worker asked for a package: it has the package
    /// and the first toolchain is next, or it is done where no package is
    /// left.
    pub open spec fn after_package(self, package: Option<CrateView>) -> WorkerStateView {
        match package {
            Some(krate) => WorkerStateView::Testing { krate, toolchain: 0 },
            None => WorkerStateView::Finished,
        }
    }

    /// The state after a step: after the first toolchain the second is
    /// next, after the second the worker needs a package.
    pub open spec fn after_step(self) -> WorkerStateView {
        match self {
            WorkerStateView::Testing { krate, toolchain } => if toolchain == 0 {
                WorkerStateView::Testing { krate, toolchain: 1 }
            } else {
                WorkerStateView::NeedsPackage
            },
            other => other,
        }
    }
}

/// One worker of a run.
#[derive(Debug)]
pub struct Worker {
    name: String,
    state: WorkerState,
}

impl Worker {
    pub closed spec fn spec_name(&self) -> Seq<char> {
        self.name@
    }

    pub closed spec fn state(&self) -> WorkerStateView {
        self.state@
    }

    #[verifier::type_invariant]
    closed spec fn inv(&self) -> bool {
        self.state@.wf()
    }

    /// A worker without a package.
    pub fn new(name: String) -> (r: Self)
        ensures
            r.spec_name() == name@,
            r.state() == WorkerStateView::NeedsPackage,
    {
        Worker { name, state: WorkerState::NeedsPackage }
    }

    pub fn name(&self) -> (r: &str)
        ensures
            r@ == self.spec_name(),
    {
        self.name.as_str()
    }

    /// The package in hand, where the worker has one.
    pub fn current(&self) -> (r: Option<&Crate>)
        ensures
            match self.state() {
                WorkerStateView::Testing { krate, .. } => r is Some && r.unwrap()@ == krate,
                _ => r is None,
            },
    {
        match &self.state {
            WorkerState::Testing { krate, .. } => Some(krate),
            _ => None,
        }
    }

    /// What the worker does next.
    pub fn next_action(&self, paused: bool, aborted: bool) -> (r: WorkerAction)
        ensures
            r == self.state().next_action(paused, aborted),
            r is RunStep ==> (r->0 == 0 || r->0 == 1) && self.state() is Testing,
    {
        proof {
            use_type_invariant(self);
        }
        if aborted {
            WorkerAction::Exit
        } else {
            match &self.state {
                WorkerState::Finished => WorkerAction::Exit,
                WorkerState::NeedsPackage => WorkerAction::TakePackage,
                WorkerState::Testing { toolchain, .. } => if paused && *toolchain == 0 {
                    WorkerAction::Wait
                } else {
                    WorkerAction::RunStep(*toolchain)
                },
            }
        }
    }

    /// Takes note of what asking for a package gave.
    pub fn package_taken(&mut self, package: Option<Crate>)
        ensures
            final(self).state() == old(self).state().after_package(opt_crate_view(package)),
            final(self).spec_name() == old(self).spec_name(),
    {
        self.state = match package {
            Some(krate) => WorkerState::Testing { krate, toolchain: 0 },
            None => WorkerState::Finished,
        };
    }

    /// Takes note that the step that was next is done.
    pub fn step_done(&mut self)
        ensures
            final(self).state() == old(self).state().after_step(),
            final(self).spec_name() == old(self).spec_name(),
    {
        proof {
            use_type_invariant(&*self);
        }
        let mut state = WorkerState::Finished;
        std::mem::swap(&mut state, &mut self.state);
        let next = match state {
            WorkerState::Testing { krate, toolchain } => if toolchain == 0 {
                WorkerState::Testing { krate, toolchain: 1 }
            } else {
                WorkerState::NeedsPackage
            },
            other => other,
        };
        self.state = next;
    }

    /// Ends the worker.
    pub fn finish(&mut self)
        ensures
            final(self).state() == WorkerStateView::Finished,
            final(self).spec_name() == old(self).spec_name(),
    {
        self.state = WorkerState::Finished;
    }
}

/// The view of an optional package.
pub open spec fn opt_crate_view(package: Option<Crate>) -> Option<CrateView> {
    match package {
        Some(k) => Some(k@),
        None => None,
    }
}

} // verus!
