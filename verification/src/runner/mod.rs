//! The run of one experiment in this process.

pub mod journal;
pub mod tasks;
pub mod test;
pub mod worker;

use crate::config::Config;
use crate::crates::{Crate, CrateView};
use crate::db::experiments::{Database, DatabaseView, ExperimentEntryView, ResultRecordView};
use crate::db::{key_index, lemma_key_index};
use crate::experiments::Experiment;
use crate::results::db::record_view;
use crate::results::{EncodedLog, EncodedLogView, TestResult, TestResultView};
use crate::runner::journal::{
    answer_view, RecorderCall, Recording, StepAnswerView, StepGiven, Stepping,
};
pub use crate::runner::worker::RecordProgress;
use crate::runner::test::{outcome_of_error, spec_outcome_of_error};
use crate::runner::worker::{DiskSpaceWatcher, Workspace};
use crate::toolchain::Toolchain;
use crate::{Error, Fallible};
use vstd::prelude::*;
use vstd::string::StringSliceAdditionalSpecFns;

verus! {

/// The seconds between two looks at the disk.
pub const DISK_SPACE_WATCHER_INTERVAL_SECS: u64 = 30;

/// The part of the disk, in percent, above which the workers are held
/// back.
pub const DISK_SPACE_WATCHER_THRESHOLD_PERCENT: u8 = 80;

/// An outcome that stands in place of the failure of a step.
#[derive(Debug, PartialEq, Eq)]
pub struct OverrideResult(pub TestResult);

/// The step that is run for each package with each toolchain. Whoever
/// uses a run says what the step does; it gives the outcome and the log, or
/// the message of what went wrong.
pub trait BuildStep {
    fn build_step(&mut self, ex: &Experiment, krate: &Crate, toolchain: &Toolchain) -> Result<
        (TestResult, Vec<u8>),
        String,
    >;
}

/// The step that builds nothing and passes.
pub struct DryRun;

impl BuildStep for DryRun {
    fn build_step(&mut self, ex: &Experiment, krate: &Crate, toolchain: &Toolchain) -> (r: Result<
        (TestResult, Vec<u8>),
        String,
    >)
        ensures
            r is Ok,
            r.unwrap().0@ == TestResultView::TestPass,
            r.unwrap().1@ == vstd::utf8::encode_utf8("dry run: nothing was built"@),
    {
        let log = "dry run: nothing was built".as_bytes_vec();
        Ok((TestResult::TestPass, log))
    }
}

/// What a step came to, from what it gave: its outcome and its log as
/// they are, or the outcome read from the message of what went wrong,
/// with the message as its log.
pub open spec fn spec_outcome_of_step(answer: StepAnswerView) -> (TestResultView, Seq<u8>) {
    match answer {
        Ok((result, log)) => (result, log),
        Err(message) => (spec_outcome_of_error(message), vstd::utf8::encode_utf8(message)),
    }
}

/// What a step came to: its outcome as it is, or the outcome read from
/// the message of what went wrong, with the message as its log.
pub fn outcome_of_step(step: Result<(TestResult, Vec<u8>), String>) -> (r: (TestResult, Vec<u8>))
    ensures
        (r.0@, r.1@) == spec_outcome_of_step(answer_view(step)),
        match step {
            Ok((result, log)) => r.0 == result && r.1 == log,
            Err(message) => r.0@ == spec_outcome_of_error(message@) && r.1@
                == vstd::utf8::encode_utf8(message@),
        },
{
    match step {
        Ok((result, log)) => (result, log),
        Err(message) => {
            let result = outcome_of_error(message.as_str());
            let log = message.as_str().as_bytes_vec();
            (result, log)
        },
    }
}

/// Whether `given` are runs of the step in the order of a run of `ex`
/// over `crates`: package by package, each with the first toolchain and
/// then with the second.
pub open spec fn steps_in_order(ex: &Experiment, crates: Seq<Crate>, given: Seq<StepGiven>) -> bool {
    &&& given.len() <= 2 * crates.len()
    &&& forall|k: int|
        0 <= k < given.len() ==> (#[trigger] given[k]).krate == crates[k / 2]@.id()
            && given[k].toolchain == ex.toolchains@[k % 2]@.text()
}

/// The call that hands what a step gave to the recorder of a run of `ex`,
/// with what the recorder answered.
pub open spec fn call_for(ex: &Experiment, g: StepGiven, answer: Result<(), Error>) -> RecorderCall {
    RecorderCall {
        experiment: ex.name@,
        krate: g.krate,
        toolchain: g.toolchain,
        result: spec_outcome_of_step(g.answer).0,
        log: spec_outcome_of_step(g.answer).1,
        version: None,
        answer,
    }
}

/// Whether `given` and `calls` are the account of a run of `ex` over
/// `crates`, as far as it came: the step was run in the order of the run;
/// what each run of it gave was handed to the recorder, under the package
/// and the toolchain of that run; and the recorder took every outcome but,
/// at most, the last.
pub open spec fn is_run_of(
    ex: &Experiment,
    crates: Seq<Crate>,
    given: Seq<StepGiven>,
    calls: Seq<RecorderCall>,
) -> bool {
    &&& steps_in_order(ex, crates, given)
    &&& calls.len() == given.len()
    &&& forall|k: int|
        0 <= k < calls.len() ==> #[trigger] calls[k] == call_for(ex, given[k], calls[k].answer)
    &&& forall|k: int| 0 <= k < calls.len() - 1 ==> (#[trigger] calls[k]).answer is Ok
}

/// Whether `r` is what a run over `crates` gives back after `calls`: the
/// number of packages, where the recorder took an outcome of every package
/// with both toolchains; else the error with which the recorder refused
/// the last outcome that it was handed.
pub open spec fn run_result(crates: Seq<Crate>, calls: Seq<RecorderCall>, r: Fallible<usize>) -> bool {
    match r {
        Ok(n) => n == crates.len() && calls.len() == 2 * crates.len() && forall|k: int|
            0 <= k < calls.len() ==> (#[trigger] calls[k]).answer is Ok,
        Err(e) => calls.len() > 0 && calls.last().answer == Err::<(), Error>(e),
    }
}

/// Runs an experiment over `crates`, one after the other: for each
/// package the step with the first toolchain, then the step with the
/// second, each outcome handed to `api` with its log. A step that fails
/// does not end the run: its failure is its outcome. The run ends early
/// only where `api` refuses an outcome; that error is given back.
/// Otherwise the number of packages is given back. The accounts of
/// `step` and `api` grow by what was done, and by nothing else. With no
/// packages no step is run and nothing is handed to `api`: the run
/// succeeds, and `api` and `step` are as they were.
pub fn run_ex<R: RecordProgress, S: BuildStep>(
    ex: &Experiment,
    workspace: &Workspace,
    api: &mut Recording<R>,
    threads_count: usize,
    config: &Config,
    crates: &Vec<Crate>,
    step: &mut Stepping<S>,
) -> (r: Fallible<usize>)
    ensures
        old(step).given().is_prefix_of(final(step).given()),
        old(api).calls().is_prefix_of(final(api).calls()),
        is_run_of(
            ex,
            crates@,
            final(step).given().skip(old(step).given().len() as int),
            final(api).calls().skip(old(api).calls().len() as int),
        ),
        run_result(crates@, final(api).calls().skip(old(api).calls().len() as int), r),
        crates@.len() == 0 ==> *final(api) == *old(api) && *final(step) == *old(step),
{
    let mut watcher = DiskSpaceWatcher::new(
        DISK_SPACE_WATCHER_INTERVAL_SECS,
        DISK_SPACE_WATCHER_THRESHOLD_PERCENT,
        threads_count,
    );
    let ghost given0 = step.given();
    let ghost calls0 = api.calls();
    let ghost mut given: Seq<StepGiven> = Seq::empty();
    let ghost mut calls: Seq<RecorderCall> = Seq::empty();
    let mut processed: usize = 0;
    let mut i: usize = 0;
    proof {
        assert(given0 + given =~= given0);
        assert(calls0 + calls =~= calls0);
    }
    while i < crates.len()
        invariant
            0 <= i <= crates.len(),
            processed == i,
            crates@.len() == 0 ==> *api == *old(api) && *step == *old(step),
            given0 == old(step).given(),
            calls0 == old(api).calls(),
            step.given() == given0 + given,
            api.calls() == calls0 + calls,
            calls.len() == 2 * i,
            is_run_of(ex, crates@, given, calls),
            forall|k: int| 0 <= k < calls.len() ==> (#[trigger] calls[k]).answer is Ok,
        decreases crates.len() - i,
    {
        let krate = &crates[i];
        let mut t: usize = 0;
        while t < 2
            invariant
                0 <= t <= 2,
                i < crates.len(),
                krate == &crates@[i as int],
                given0 == old(step).given(),
                calls0 == old(api).calls(),
                step.given() == given0 + given,
                api.calls() == calls0 + calls,
                calls.len() == 2 * i + t,
                is_run_of(ex, crates@, given, calls),
                forall|k: int| 0 <= k < calls.len() ==> (#[trigger] calls[k]).answer is Ok,
            decreases 2 - t,
        {
            let toolchain = &ex.toolchains[t];
            let ghost m = calls.len() as int;
            let answer = step.run(ex, krate, toolchain);
            let ghost g = StepGiven {
                krate: krate@.id(),
                toolchain: toolchain@.text(),
                answer: answer_view(answer),
            };
            let (result, log) = outcome_of_step(answer);
            let recorded = api.record(ex, krate, toolchain, log.as_slice(), &result, None);
            proof {
                let c = call_for(ex, g, recorded);
                assert(m / 2 == i && m % 2 == t);
                assert(step.given() =~= given0 + given.push(g));
                assert(api.calls() =~= calls0 + calls.push(c));
                given = given.push(g);
                calls = calls.push(c);
                assert(is_run_of(ex, crates@, given, calls));
            }
            match recorded {
                Ok(()) => {},
                Err(e) => {
                    watcher.stop();
                    proof {
                        assert(step.given().skip(given0.len() as int) =~= given);
                        assert(api.calls().skip(calls0.len() as int) =~= calls);
                        assert(calls.last().answer == Err::<(), Error>(e));
                    }
                    return Err(e);
                },
            }
            t += 1;
        }
        processed += 1;
        i += 1;
    }
    watcher.stop();
    proof {
        assert(step.given().skip(given0.len() as int) =~= given);
        assert(api.calls().skip(calls0.len() as int) =~= calls);
    }
    Ok(processed)
}

impl ExperimentEntryView {
    /// Whether a result is stored for the package and the toolchain.
    pub open spec fn has_result(self, krate: Seq<char>, toolchain: Seq<char>) -> bool {
        self.result(krate, toolchain) is Some
    }
}

/// Storing a result keeps every result that was stored, and the result
/// itself is stored from then on.
pub proof fn lemma_store_keeps_results(
    entry: ExperimentEntryView,
    rec: ResultRecordView,
    krate: Seq<char>,
    toolchain: Seq<char>,
)
    requires
        entry.wf(),
        entry.has_result(krate, toolchain) || (krate, toolchain) == rec.key(),
    ensures
        entry.with_result(rec).has_result(krate, toolchain),
{
    let keys = entry.result_keys();
    let after = entry.with_result(rec);
    lemma_key_index(keys, rec.key());
    lemma_key_index(keys, (krate, toolchain));
    match entry.find_result(rec.krate, rec.toolchain) {
        Some(j) => {
            assert(after.result_keys() =~= keys);
        },
        None => {
            assert(after.result_keys() =~= keys.push(rec.key()));
            if (krate, toolchain) == rec.key() {
                assert(after.result_keys()[keys.len() as int] == rec.key());
            } else {
                let k = keys.index_of((krate, toolchain));
                assert(after.result_keys()[k] == (krate, toolchain));
            }
        },
    }
}

/// Storing a result adds none but that one: a result that is stored
/// afterwards was stored before, unless it stands under the key of the
/// result that was stored.
pub proof fn lemma_store_adds_one(
    entry: ExperimentEntryView,
    rec: ResultRecordView,
    krate: Seq<char>,
    toolchain: Seq<char>,
)
    requires
        entry.wf(),
        entry.with_result(rec).has_result(krate, toolchain),
    ensures
        entry.has_result(krate, toolchain) || (krate, toolchain) == rec.key(),
{
    let keys = entry.result_keys();
    let after = entry.with_result(rec);
    crate::results::db::lemma_result_after_store(entry, rec);
    lemma_key_index(keys, rec.key());
    lemma_key_index(after.result_keys(), (krate, toolchain));
    let k = key_index(after.result_keys(), (krate, toolchain)).unwrap();
    match entry.find_result(rec.krate, rec.toolchain) {
        Some(j) => {
            assert(after.result_keys() =~= keys);
        },
        None => {
            assert(after.result_keys() =~= keys.push(rec.key()));
            if k < keys.len() {
                assert(keys[k] == (krate, toolchain));
                assert(keys.contains((krate, toolchain)));
            }
        },
    }
}

/// Whether the package called `krate` with the toolchain written
/// `toolchain` in the experiment called `experiment` is one of the steps
/// of a run of `ex` over `crates`.
pub open spec fn is_step_of(
    ex: &Experiment,
    crates: Seq<Crate>,
    experiment: Seq<char>,
    krate: Seq<char>,
    toolchain: Seq<char>,
) -> bool {
    experiment == ex.name@ && exists|c: int, t: int|
        0 <= c < crates.len() && 0 <= t < 2 && krate == (#[trigger] crates[c])@.id() && toolchain == (
        #[trigger] ex.toolchains@[t])@.text()
}

impl DatabaseView {
    /// Whether this store is `before` but for the results of the
    /// experiment at `i`, of which none that `before` holds is missing.
    pub open spec fn extends_results_of(self, before: DatabaseView, i: int) -> bool {
        &&& 0 <= i < before.experiments.len()
        &&& self == DatabaseView {
            experiments: before.experiments.update(
                i,
                ExperimentEntryView {
                    results: self.experiments[i].results,
                    ..before.experiments[i]
                },
            ),
            ..before
        }
        &&& forall|k: Seq<char>, t: Seq<char>| #[trigger]
            before.experiments[i].has_result(k, t) ==> self.experiments[i].has_result(k, t)
    }
}

/// The result that is stored for what a run of the step gave: its outcome
/// under its package and its toolchain, with its log as plain bytes.
pub open spec fn stored_record(g: StepGiven) -> ResultRecordView {
    ResultRecordView {
        krate: g.krate,
        toolchain: g.toolchain,
        result: spec_outcome_of_step(g.answer).0,
        log: Some(EncodedLogView::Plain(spec_outcome_of_step(g.answer).1)),
    }
}

/// An experiment with the results stored for the runs `given` of the
/// step, first to last.
pub open spec fn with_results_of(entry: ExperimentEntryView, given: Seq<StepGiven>) -> ExperimentEntryView
    decreases given.len(),
{
    if given.len() == 0 {
        entry
    } else {
        with_results_of(entry, given.drop_last()).with_result(stored_record(given.last()))
    }
}

/// Runs an experiment over `crates`, one after the other, and keeps the
/// outcomes with the experiment called `ex.name` in `db`: for each package
/// the step with the first toolchain of `ex`, then the step with the
/// second. A step that fails does not end the run: its failure is its
/// outcome. `NotFound`, and nothing done, where packages are given and
/// the store holds no such experiment. Otherwise the store is changed in
/// the results of that experiment alone: none that was there is missing,
/// for every package there is one for each of the two toolchains, and
/// none has come but for these packages with these toolchains. The step
/// has then run once for each package with each toolchain, in the order of
/// the run, and the experiment holds the results of these runs, stored
/// first to last.
pub fn run_ex_stored<S: BuildStep>(
    ex: &Experiment,
    db: &mut Database,
    crates: &Vec<Crate>,
    step: &mut Stepping<S>,
) -> (r: Fallible<usize>)
    requires
        old(db)@.wf(),
    ensures
        final(db)@.wf(),
        old(step).given().is_prefix_of(final(step).given()),
        crates@.len() == 0 ==> r == Ok::<usize, Error>(0) && final(db)@ == old(db)@
            && final(step).given() == old(step).given(),
        crates@.len() > 0 ==> (match old(db)@.find(ex.name@) {
            None => r == Err::<usize, Error>(Error::NotFound) && final(db)@ == old(db)@
                && final(step).given() == old(step).given(),
            Some(i) => {
                &&& r == Ok::<usize, Error>(crates@.len() as usize)
                &&& final(step).given().len() == old(step).given().len() + 2 * crates@.len()
                &&& steps_in_order(
                    ex,
                    crates@,
                    final(step).given().skip(old(step).given().len() as int),
                )
                &&& final(db)@.experiments[i] == with_results_of(
                    old(db)@.experiments[i],
                    final(step).given().skip(old(step).given().len() as int),
                )
                &&& final(db)@.extends_results_of(old(db)@, i)
                &&& forall|c: int, t: int|
                    0 <= c < crates@.len() && 0 <= t < 2 ==> (#[trigger] final(db)@.experiments[i].has_result(
                        crates@[c]@.id(),
                        ex.toolchains@[t]@.text(),
                    ))
                &&& forall|k: Seq<char>, t: Seq<char>| #[trigger]
                    final(db)@.experiments[i].has_result(k, t) ==> old(db)@.experiments[i].has_result(
                        k,
                        t,
                    ) || is_step_of(ex, crates@, ex.name@, k, t)
            },
        }),
{
    if crates.len() == 0 {
        return Ok(0);
    }
    let idx = match db.position(ex.name.as_str()) {
        Some(i) => i,
        None => {
            return Err(Error::NotFound);
        },
    };
    let ghost before = db@;
    let ghost name = ex.name@;
    let ghost given0 = step.given();
    let ghost mut given: Seq<StepGiven> = Seq::empty();
    let mut c: usize = 0;
    proof {
        assert(given0 + given =~= given0);
        assert(db@.experiments =~= before.experiments.update(
            idx as int,
            ExperimentEntryView {
                results: db@.experiments[idx as int].results,
                ..before.experiments[idx as int]
            },
        ));
    }
    while c < crates.len()
        invariant
            0 <= c <= crates.len(),
            db@.wf(),
            before == old(db)@,
            before.wf(),
            name == ex.name@,
            before.find(name) == Some(idx as int),
            db@.find(name) == Some(idx as int),
            db@.extends_results_of(before, idx as int),
            given0 == old(step).given(),
            step.given() == given0 + given,
            given.len() == 2 * c,
            steps_in_order(ex, crates@, given),
            db@.experiments[idx as int] == with_results_of(before.experiments[idx as int], given),
            forall|k: Seq<char>, t: Seq<char>| #[trigger]
                db@.experiments[idx as int].has_result(k, t) ==> before.experiments[idx as int].has_result(
                    k,
                    t,
                ) || is_step_of(ex, crates@, name, k, t),
            forall|p: int, t: int|
                0 <= p < c && 0 <= t < 2 ==> #[trigger] db@.experiments[idx as int].has_result(
                    crates@[p]@.id(),
                    ex.toolchains@[t]@.text(),
                ),
        decreases crates.len() - c,
    {
        let krate = &crates[c];
        let mut t: usize = 0;
        while t < 2
            invariant
                0 <= t <= 2,
                0 <= c < crates.len(),
                krate == &crates@[c as int],
                db@.wf(),
                before == old(db)@,
                before.wf(),
                name == ex.name@,
                before.find(name) == Some(idx as int),
                db@.find(name) == Some(idx as int),
                db@.extends_results_of(before, idx as int),
                given0 == old(step).given(),
                step.given() == given0 + given,
                given.len() == 2 * c + t,
                steps_in_order(ex, crates@, given),
                db@.experiments[idx as int] == with_results_of(
                    before.experiments[idx as int],
                    given,
                ),
                forall|k: Seq<char>, u: Seq<char>| #[trigger]
                    db@.experiments[idx as int].has_result(k, u) ==> before.experiments[idx as int].has_result(
                        k,
                        u,
                    ) || is_step_of(ex, crates@, name, k, u),
                forall|p: int, u: int|
                    0 <= p < c && 0 <= u < 2 ==> #[trigger] db@.experiments[idx as int].has_result(
                        crates@[p]@.id(),
                        ex.toolchains@[u]@.text(),
                    ),
                forall|u: int|
                    0 <= u < t ==> #[trigger] db@.experiments[idx as int].has_result(
                        crates@[c as int]@.id(),
                        ex.toolchains@[u]@.text(),
                    ),
            decreases 2 - t,
        {
            let toolchain = &ex.toolchains[t];
            let ghost m = given.len() as int;
            let answer = step.run(ex, krate, toolchain);
            let ghost g = StepGiven {
                krate: krate@.id(),
                toolchain: toolchain@.text(),
                answer: answer_view(answer),
            };
            let (result, log) = outcome_of_step(answer);
            let stored = EncodedLog::from_plain(log);
            let ghost mid = db@;
            let ghost entry = mid.experiments[idx as int];
            let ghost rec = record_view(krate@, toolchain@, result@, Some(stored@));
            let r = db.store_result(ex.name.as_str(), krate, toolchain, &result, Some(&stored));
            proof {
                assert(r is Ok);
                assert(entry.wf());
                let after = db@.experiments[idx as int];
                assert(after == entry.with_result(rec));
                assert(m / 2 == c && m % 2 == t);
                assert(rec == stored_record(g));
                assert(step.given() =~= given0 + given.push(g));
                assert(given.push(g).drop_last() =~= given);
                given = given.push(g);
                assert(after == with_results_of(before.experiments[idx as int], given));
                assert(db@.names() =~= mid.names());
                assert(krate@.id() == crates@[c as int]@.id() && toolchain@.text()
                    == ex.toolchains@[t as int]@.text());
                assert(is_step_of(ex, crates@, name, krate@.id(), toolchain@.text()));
                assert forall|k: Seq<char>, u: Seq<char>| #[trigger]
                    after.has_result(k, u) implies before.experiments[idx as int].has_result(k, u)
                    || is_step_of(ex, crates@, name, k, u) by {
                    lemma_store_adds_one(entry, rec, k, u);
                }
                assert forall|k: Seq<char>, u: Seq<char>| #[trigger]
                    before.experiments[idx as int].has_result(k, u) implies after.has_result(
                    k,
                    u,
                ) by {
                    lemma_store_keeps_results(entry, rec, k, u);
                }
                assert forall|p: int, u: int| 0 <= p < c && 0 <= u < 2 implies #[trigger] after.has_result(
                    crates@[p]@.id(),
                    ex.toolchains@[u]@.text(),
                ) by {
                    assert(entry.has_result(crates@[p]@.id(), ex.toolchains@[u]@.text()));
                    lemma_store_keeps_results(
                        entry,
                        rec,
                        crates@[p]@.id(),
                        ex.toolchains@[u]@.text(),
                    );
                }
                assert forall|u: int| 0 <= u < t + 1 implies #[trigger] after.has_result(
                    crates@[c as int]@.id(),
                    ex.toolchains@[u]@.text(),
                ) by {
                    if u < t {
                        assert(entry.has_result(crates@[c as int]@.id(), ex.toolchains@[u]@.text()));
                    }
                    lemma_store_keeps_results(
                        entry,
                        rec,
                        crates@[c as int]@.id(),
                        ex.toolchains@[u]@.text(),
                    );
                }
                assert(db@.experiments =~= before.experiments.update(
                    idx as int,
                    ExperimentEntryView { results: after.results, ..before.experiments[idx as int] },
                ));
            }
            t += 1;
        }
        c += 1;
    }
    proof {
        assert(step.given().skip(given0.len() as int) =~= given);
    }
    Ok(crates.len())
}

} // verus!
