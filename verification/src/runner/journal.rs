//! A step and a recorder, each with an account of what was asked of it.
//! What a step does and what a recorder does is for whoever uses a run to
//! say, so nothing is known of either. The account is kept beside them, and
//! only a call adds to it: what it holds is what was done.

use crate::crates::{Crate, CrateView};
use crate::experiments::Experiment;
use crate::results::{TestResult, TestResultView};
use crate::runner::worker::RecordProgress;
use crate::runner::BuildStep;
use crate::toolchain::Toolchain;
use crate::{Error, Fallible};
use vstd::prelude::*;

verus! {

/// What a step gave: an outcome and a log, or the message of what went
/// wrong.
pub type StepAnswerView = Result<(TestResultView, Seq<u8>), Seq<char>>;

/// What a step gave.
pub open spec fn answer_view(answer: Result<(TestResult, Vec<u8>), String>) -> StepAnswerView {
    match answer {
        Ok((result, log)) => Ok((result@, log@)),
        Err(message) => Err(message@),
    }
}

/// One run of a step: the package and the toolchain that it was run for,
/// and what it gave.
pub struct StepGiven {
    pub krate: Seq<char>,
    pub toolchain: Seq<char>,
    pub answer: StepAnswerView,
}

/// One call of a recorder: what it was handed, and what it answered.
pub struct RecorderCall {
    pub experiment: Seq<char>,
    pub krate: Seq<char>,
    pub toolchain: Seq<char>,
    pub result: TestResultView,
    pub log: Seq<u8>,
    pub version: Option<(Seq<char>, Seq<char>)>,
    pub answer: Result<(), Error>,
}

/// The identifiers of a pair of packages, where there is one.
pub open spec fn version_view(version: Option<(&Crate, &Crate)>) -> Option<(Seq<char>, Seq<char>)> {
    match version {
        Some((from, to)) => Some((from@.id(), to@.id())),
        None => None,
    }
}

/// A step with the account of its runs.
pub struct Stepping<S> {
    step: S,
    given: Ghost<Seq<StepGiven>>,
}

impl<S: BuildStep> Stepping<S> {
    /// The runs of the step so far, first to last.
    pub closed spec fn given(&self) -> Seq<StepGiven> {
        self.given@
    }

    /// The step itself.
    pub closed spec fn step(&self) -> S {
        self.step
    }

    /// A step that has not run yet.
    pub fn new(step: S) -> (r: Self)
        ensures
            r.step() == step,
            r.given() == Seq::<StepGiven>::empty(),
    {
        Stepping { step, given: Ghost(Seq::empty()) }
    }

    /// The step itself.
    pub fn inner(&self) -> (r: &S)
        ensures
            *r == self.step(),
    {
        &self.step
    }

    /// The step itself, without the account.
    pub fn into_inner(self) -> (r: S)
        ensures
            r == self.step(),
    {
        self.step
    }

    /// Runs the step for a package with a toolchain, and takes note of
    /// what it gave.
    pub fn run(&mut self, ex: &Experiment, krate: &Crate, toolchain: &Toolchain) -> (r: Result<
        (TestResult, Vec<u8>),
        String,
    >)
        ensures
            final(self).given() == old(self).given().push(
                StepGiven { krate: krate@.id(), toolchain: toolchain@.text(), answer: answer_view(r) },
            ),
    {
        let r = self.step.build_step(ex, krate, toolchain);
        self.given = Ghost(
            self.given@.push(
                StepGiven { krate: krate@.id(), toolchain: toolchain@.text(), answer: answer_view(r) },
            ),
        );
        r
    }
}

/// A recorder with the account of its calls.
pub struct Recording<R> {
    recorder: R,
    calls: Ghost<Seq<RecorderCall>>,
}

impl<R: RecordProgress> Recording<R> {
    /// The calls of the recorder so far, first to last.
    pub closed spec fn calls(&self) -> Seq<RecorderCall> {
        self.calls@
    }

    /// The recorder itself.
    pub closed spec fn recorder(&self) -> R {
        self.recorder
    }

    /// A recorder that has not been called yet.
    pub fn new(recorder: R) -> (r: Self)
        ensures
            r.recorder() == recorder,
            r.calls() == Seq::<RecorderCall>::empty(),
    {
        Recording { recorder, calls: Ghost(Seq::empty()) }
    }

    /// The recorder itself.
    pub fn inner(&self) -> (r: &R)
        ensures
            *r == self.recorder(),
    {
        &self.recorder
    }

    /// The recorder itself, without the account.
    pub fn into_inner(self) -> (r: R)
        ensures
            r == self.recorder(),
    {
        self.recorder
    }

    /// Hands the outcome of one step to the recorder, and takes note of
    /// what was handed over and what the recorder answered.
    pub fn record(
        &mut self,
        ex: &Experiment,
        krate: &Crate,
        toolchain: &Toolchain,
        log: &[u8],
        result: &TestResult,
        version: Option<(&Crate, &Crate)>,
    ) -> (r: Fallible<()>)
        ensures
            final(self).calls() == old(self).calls().push(
                RecorderCall {
                    experiment: ex.name@,
                    krate: krate@.id(),
                    toolchain: toolchain@.text(),
                    result: result@,
                    log: log@,
                    version: version_view(version),
                    answer: r,
                },
            ),
    {
        let r = self.recorder.record_progress(ex, krate, toolchain, log, result, version);
        self.calls = Ghost(
            self.calls@.push(
                RecorderCall {
                    experiment: ex.name@,
                    krate: krate@.id(),
                    toolchain: toolchain@.text(),
                    result: result@,
                    log: log@,
                    version: version_view(version),
                    answer: r,
                },
            ),
        );
        r
    }
}

} // verus!
