//! The store of results: what testing each package of an experiment with
//! each of its toolchains came to, and how far the experiment has come.

use crate::crates::{Crate, CrateView};
use crate::db::experiments::{
    Database, DatabaseView, ExperimentCrate, ExperimentCrateView, ExperimentEntryView,
    ResultRecord, ResultRecordView,
};
use crate::db::{key_index, lemma_key_absent, lemma_key_found, lemma_key_index};
use crate::model::{opt_view, views};
use crate::results::{clone_opt_log, EncodedLog, EncodedLogView, TestResult, TestResultView};
use crate::text::str_eq;
use crate::toolchain::{Toolchain, ToolchainView};
use crate::{Error, Fallible};
use vstd::prelude::*;

verus! {

/// How far an experiment has come.
#[derive(Debug, Clone, Copy, PartialEq, Eq, Structural)]
pub struct ProgressData {
    pub total: usize,
    pub completed: usize,
    pub failed: usize,
    pub skipped: usize,
}

impl ProgressData {
    pub fn new() -> (r: Self)
        ensures
            r == (ProgressData { total: 0, completed: 0, failed: 0, skipped: 0 }),
    {
        ProgressData { total: 0, completed: 0, failed: 0, skipped: 0 }
    }

    /// The part that is completed, in whole percent: nothing of nothing is
    /// zero percent.
    pub open spec fn spec_percentage(self) -> int {
        if self.total == 0 {
            0
        } else {
            100 * self.completed / (self.total as int)
        }
    }

    /// The part that is completed, in whole percent.
    pub fn percentage(&self) -> (r: u64)
        requires
            self.completed <= self.total,
        ensures
            r == self.spec_percentage(),
            r <= 100,
    {
        if self.total == 0 {
            0
        } else {
            let c: u128 = self.completed as u128;
            let t: u128 = self.total as u128;
            assert((100 * c) / (t as int) <= 100) by (nonlinear_arith)
                requires
                    0 <= c <= t,
                    t > 0,
            ;
            let p: u128 = 100 * c / t;
            p as u64
        }
    }
}

impl Default for ProgressData {
    fn default() -> (r: Self)
        ensures
            r == (ProgressData { total: 0, completed: 0, failed: 0, skipped: 0 }),
    {
        ProgressData::new()
    }
}

impl ExperimentEntryView {
    /// Where the result for a package and a toolchain stands.
    pub open spec fn find_result(self, krate: Seq<char>, toolchain: Seq<char>) -> Option<int> {
        key_index(self.result_keys(), (krate, toolchain))
    }

    /// The experiment with `rec` stored: in place of the result with the
    /// same key where there is one, as a new result where not.
    pub open spec fn with_result(self, rec: ResultRecordView) -> ExperimentEntryView {
        ExperimentEntryView {
            results: match self.find_result(rec.krate, rec.toolchain) {
                Some(j) => self.results.update(j, rec),
                None => self.results.push(rec),
            },
            ..self
        }
    }

    /// Where the package with identifier `krate` stands on the list.
    pub open spec fn find_crate(self, krate: Seq<char>) -> Option<int> {
        key_index(self.crate_ids(), krate)
    }

    /// How many of the two toolchains have a result for `krate`.
    pub open spec fn done_for(self, krate: Seq<char>) -> nat {
        let a: nat = if self.result(krate, self.experiment.toolchains[0].text()) is Some {
            1
        } else {
            0
        };
        let b: nat = if self.result(krate, self.experiment.toolchains[1].text()) is Some {
            1
        } else {
            0
        };
        a + b
    }

    /// The runs that are done among the first `n` listed packages: for each
    /// package that is not left out, one for each of the two toolchains that
    /// has a result.
    pub open spec fn completed_upto(self, n: int) -> nat
        decreases n,
    {
        if n <= 0 {
            0
        } else if self.crates[n - 1].skipped {
            self.completed_upto(n - 1)
        } else {
            self.completed_upto(n - 1) + self.done_for(self.crates[n - 1].krate)
        }
    }

    /// How many of the first `n` listed packages are not left out.
    pub open spec fn active_upto(self, n: int) -> nat
        decreases n,
    {
        if n <= 0 {
            0
        } else if self.crates[n - 1].skipped {
            self.active_upto(n - 1)
        } else {
            self.active_upto(n - 1) + 1
        }
    }

    /// The runs that are done.
    pub open spec fn completed(self) -> nat {
        self.completed_upto(self.crates.len() as int)
    }

    /// The runs there are to do: two for each package that is not left out.
    pub open spec fn total(self) -> nat {
        2 * self.active_upto(self.crates.len() as int)
    }

    /// No more runs are done than there are to do, and no more are to do
    /// than twice the packages.
    pub proof fn lemma_progress_bounds(self, n: int)
        requires
            0 <= n <= self.crates.len(),
        ensures
            self.completed_upto(n) <= 2 * self.active_upto(n),
            self.active_upto(n) <= n,
        decreases n,
    {
        if n > 0 {
            self.lemma_progress_bounds(n - 1);
        }
    }
}

/// Of every experiment, no more runs are done than there are to do.
pub proof fn lemma_completed_at_most_total(entry: ExperimentEntryView)
    ensures
        0 <= entry.completed() <= entry.total(),
{
    entry.lemma_progress_bounds(entry.crates.len() as int);
}

/// Of an experiment without packages, nothing is done and nothing is to
/// do, which counts as zero percent.
pub proof fn lemma_no_packages_no_progress(entry: ExperimentEntryView)
    requires
        entry.crates.len() == 0,
    ensures
        entry.completed() == 0,
        entry.total() == 0,
        (ProgressData { total: 0, completed: 0, failed: 0, skipped: 0 }).spec_percentage() == 0,
        crate::ui::routes::spec_percentage(entry.completed() as int, entry.total() as int) == 0,
{
}

/// After a result is stored, it is the result found under its key.
pub proof fn lemma_result_after_store(entry: ExperimentEntryView, rec: ResultRecordView)
    requires
        entry.wf(),
    ensures
        entry.with_result(rec).wf(),
        entry.with_result(rec).result(rec.krate, rec.toolchain) == Some(rec),
{
    let after = entry.with_result(rec);
    let keys = entry.result_keys();
    lemma_key_index(keys, rec.key());
    match entry.find_result(rec.krate, rec.toolchain) {
        Some(j) => {
            assert(after.result_keys() =~= keys);
            assert(after.results[j] == rec);
        },
        None => {
            assert(after.result_keys() =~= keys.push(rec.key()));
            assert(after.result_keys().no_duplicates());
            lemma_key_found(after.result_keys(), rec.key(), keys.len() as int);
        },
    }
    assert(after.crate_ids() =~= entry.crate_ids());
}

/// Storing a result twice under one key leaves what storing the second
/// alone leaves: the last write stands, and no result is added.
pub proof fn lemma_store_twice(
    entry: ExperimentEntryView,
    first: ResultRecordView,
    second: ResultRecordView,
)
    requires
        entry.wf(),
        first.key() == second.key(),
    ensures
        entry.with_result(first).with_result(second) == entry.with_result(second),
        entry.with_result(first).with_result(first) == entry.with_result(first),
        entry.with_result(first).with_result(second).results.len() == entry.with_result(
            first,
        ).results.len(),
{
    let keys = entry.result_keys();
    let once = entry.with_result(first);
    lemma_key_index(keys, first.key());
    lemma_result_after_store(entry, first);
    lemma_key_index(once.result_keys(), first.key());
    match entry.find_result(first.krate, first.toolchain) {
        Some(j) => {
            assert(once.result_keys() =~= keys);
            assert(once.with_result(second).results =~= entry.with_result(second).results);
            assert(once.with_result(first).results =~= once.results);
        },
        None => {
            assert(once.result_keys() =~= keys.push(first.key()));
            lemma_key_found(once.result_keys(), first.key(), keys.len() as int);
            assert(once.with_result(second).results =~= entry.with_result(second).results);
            assert(once.with_result(first).results =~= once.results);
        },
    }
}

impl DatabaseView {
    /// The result stored for an experiment, a package and a toolchain.
    pub open spec fn result(
        self,
        experiment: Seq<char>,
        krate: Seq<char>,
        toolchain: Seq<char>,
    ) -> Option<ResultRecordView> {
        match self.entry(experiment) {
            Some(entry) => entry.result(krate, toolchain),
            None => None,
        }
    }

    /// What storing a result does to the store and gives back: it is
    /// stored with its experiment, in place of the result with the same
    /// key where there is one.
    pub open spec fn store_outcome(
        self,
        after: DatabaseView,
        r: Result<(), Error>,
        experiment: Seq<char>,
        rec: ResultRecordView,
    ) -> bool {
        match self.find(experiment) {
            None => r == Err::<(), Error>(Error::NotFound) && after == self,
            Some(i) => r == Ok::<(), Error>(()) && after == DatabaseView {
                experiments: self.experiments.update(i, self.experiments[i].with_result(rec)),
                ..self
            },
        }
    }

    /// What listing a package with an experiment does to the store and
    /// gives back.
    pub open spec fn add_crate_outcome(
        self,
        after: DatabaseView,
        r: Result<(), Error>,
        experiment: Seq<char>,
        krate: ExperimentCrateView,
    ) -> bool {
        match self.find(experiment) {
            None => r == Err::<(), Error>(Error::NotFound) && after == self,
            Some(i) => {
                let entry = self.experiments[i];
                if entry.find_crate(krate.krate) is Some {
                    r == Err::<(), Error>(Error::AlreadyExists) && after == self
                } else if 2 * (entry.crates.len() + 1) > usize::MAX {
                    r == Err::<(), Error>(Error::Internal) && after == self
                } else {
                    r == Ok::<(), Error>(()) && after == DatabaseView {
                        experiments: self.experiments.update(
                            i,
                            ExperimentEntryView { crates: entry.crates.push(krate), ..entry },
                        ),
                        ..self
                    }
                }
            },
        }
    }

    /// The store without the results of `experiment`.
    pub open spec fn without_results(self, experiment: Seq<char>) -> DatabaseView {
        match self.find(experiment) {
            None => self,
            Some(i) => DatabaseView {
                experiments: self.experiments.update(
                    i,
                    ExperimentEntryView { results: Seq::empty(), ..self.experiments[i] },
                ),
                ..self
            },
        }
    }

    /// The number of results of `experiment`.
    pub open spec fn result_count(self, experiment: Seq<char>) -> nat {
        match self.entry(experiment) {
            Some(entry) => entry.results.len(),
            None => 0,
        }
    }
}

/// After a result is stored with an experiment, it is the result found
/// for that experiment under its key.
pub proof fn lemma_get_after_put(
    db: DatabaseView,
    after: DatabaseView,
    experiment: Seq<char>,
    rec: ResultRecordView,
)
    requires
        db.wf(),
        db.store_outcome(after, Ok(()), experiment, rec),
    ensures
        after.result(experiment, rec.krate, rec.toolchain) == Some(rec),
{
    lemma_key_index(db.names(), experiment);
    let i = db.find(experiment).unwrap();
    lemma_result_after_store(db.experiments[i], rec);
    assert(after.names() =~= db.names());
}

/// Storing a result twice with one experiment under one key leaves the
/// store as storing the second alone leaves it.
pub proof fn lemma_put_twice(
    db: DatabaseView,
    once: DatabaseView,
    twice: DatabaseView,
    direct: DatabaseView,
    experiment: Seq<char>,
    first: ResultRecordView,
    second: ResultRecordView,
)
    requires
        db.wf(),
        first.key() == second.key(),
        db.store_outcome(once, Ok(()), experiment, first),
        once.store_outcome(twice, Ok(()), experiment, second),
        db.store_outcome(direct, Ok(()), experiment, second),
    ensures
        twice == direct,
{
    lemma_key_index(db.names(), experiment);
    let i = db.find(experiment).unwrap();
    assert(once.names() =~= db.names());
    lemma_store_twice(db.experiments[i], first, second);
    assert(twice.experiments =~= direct.experiments);
}

/// The record under which a result is stored.
pub open spec fn record_view(
    krate: CrateView,
    toolchain: ToolchainView,
    result: TestResultView,
    log: Option<EncodedLogView>,
) -> ResultRecordView {
    ResultRecordView { krate: krate.id(), toolchain: toolchain.text(), result, log }
}

/// The outcome and the log of a stored result.
pub open spec fn found_view(found: Option<(TestResult, Option<EncodedLog>)>) -> Option<
    (TestResultView, Option<EncodedLogView>),
> {
    match found {
        Some((result, log)) => Some((result@, opt_view(log))),
        None => None,
    }
}

/// The outcome and the log of a stored result.
pub open spec fn stored_view(rec: Option<ResultRecordView>) -> Option<
    (TestResultView, Option<EncodedLogView>),
> {
    match rec {
        Some(r) => Some((r.result, r.log)),
        None => None,
    }
}

impl Database {
    /// Where the result for a package and a toolchain stands among the
    /// results of the experiment at `i`.
    fn result_position(&self, i: usize, krate: &str, toolchain: &str) -> (r: Option<usize>)
        requires
            self@.wf(),
            i < self.entries.len(),
        ensures
            match r {
                Some(j) => self@.experiments[i as int].find_result(krate@, toolchain@) == Some(
                    j as int,
                ) && j < self.entries@[i as int].results.len(),
                None => self@.experiments[i as int].find_result(krate@, toolchain@) is None,
            },
    {
        let ghost entry = self@.experiments[i as int];
        let ghost keys = entry.result_keys();
        assert(entry.wf());
        let mut j: usize = 0;
        while j < self.entries[i].results.len()
            invariant
                i < self.entries.len(),
                0 <= j <= self.entries@[i as int].results.len(),
                entry == self@.experiments[i as int],
                keys == entry.result_keys(),
                keys.no_duplicates(),
                forall|k: int| 0 <= k < j ==> keys[k] != (krate@, toolchain@),
            decreases self.entries@[i as int].results.len() - j,
        {
            let rec = &self.entries[i].results[j];
            if str_eq(rec.krate.as_str(), krate) && str_eq(rec.toolchain.as_str(), toolchain) {
                proof {
                    assert(keys[j as int] == (krate@, toolchain@));
                    lemma_key_found(keys, (krate@, toolchain@), j as int);
                }
                return Some(j);
            }
            proof {
                assert(keys[j as int] == entry.results[j as int].key());
            }
            j += 1;
        }
        proof {
            lemma_key_absent(keys, (krate@, toolchain@));
        }
        None
    }

    /// Stores what testing `krate` with `toolchain` came to in
    /// `experiment`, in place of what was stored for the two before.
    /// `NotFound` where there is no such experiment.
    pub fn store_result(
        &mut self,
        experiment: &str,
        krate: &Crate,
        toolchain: &Toolchain,
        result: &TestResult,
        log: Option<&EncodedLog>,
    ) -> (r: Fallible<()>)
        requires
            old(self)@.wf(),
        ensures
            final(self)@.wf(),
            old(self)@.store_outcome(
                final(self)@,
                r,
                experiment@,
                record_view(
                    krate@,
                    toolchain@,
                    result@,
                    match log {
                        Some(l) => Some(l@),
                        None => None,
                    },
                ),
            ),
    {
        let rec = ResultRecord {
            krate: krate.id(),
            toolchain: toolchain.to_string(),
            result: result.clone(),
            log: match log {
                Some(l) => Some(l.clone()),
                None => None,
            },
        };
        self.store_record(experiment, rec)
    }

    /// Stores a result with `experiment`, in place of the result with the
    /// same key where there is one. `NotFound` where there is no such
    /// experiment.
    pub fn store_record(&mut self, experiment: &str, rec: ResultRecord) -> (r: Fallible<()>)
        requires
            old(self)@.wf(),
        ensures
            final(self)@.wf(),
            old(self)@.store_outcome(final(self)@, r, experiment@, rec@),
    {
        let i = match self.position(experiment) {
            Some(i) => i,
            None => {
                return Err(Error::NotFound);
            },
        };
        let ghost before = self@;
        let ghost entry = before.experiments[i as int];
        let ghost rv = rec@;
        assert(entry.wf());
        match self.result_position(i, rec.krate.as_str(), rec.toolchain.as_str()) {
            Some(j) => {
                self.entries[i].results[j] = rec;
                assert(self.entries@[i as int].model().results =~= entry.results.update(
                    j as int,
                    rv,
                ));
            },
            None => {
                self.entries[i].results.push(rec);
                assert(self.entries@[i as int].model().results =~= entry.results.push(rv));
            },
        }
        proof {
            let target = entry.with_result(rv);
            let after = DatabaseView {
                experiments: before.experiments.update(i as int, target),
                ..before
            };
            assert(self.entries@[i as int].model() == target);
            assert(self@.experiments =~= after.experiments);
            assert(self@ == after);
            lemma_result_after_store(entry, rv);
            crate::db::lemma_key_index(before.names(), experiment@);
            assert forall|j: int|
                0 <= j < before.experiments.len() && j != i implies before.experiments[j].experiment.name
                != target.experiment.name by {
                assert(before.names()[j] == before.experiments[j].experiment.name);
            }
            crate::actions::experiments::lemma_update_keeps_wf(before, i as int, target);
        }
        Ok(())
    }

    /// The results stored with `experiment`, in the order in which their
    /// keys were first stored. `NotFound` where there is no such
    /// experiment.
    pub fn experiment_results(&self, experiment: &str) -> (r: Fallible<Vec<ResultRecord>>)
        requires
            self@.wf(),
        ensures
            match self@.entry(experiment@) {
                Some(entry) => r is Ok && views(r.unwrap()@) == entry.results,
                None => r == Err::<Vec<ResultRecord>, Error>(Error::NotFound),
            },
    {
        let i = match self.position(experiment) {
            Some(i) => i,
            None => {
                return Err(Error::NotFound);
            },
        };
        let mut out: Vec<ResultRecord> = Vec::new();
        let mut j: usize = 0;
        while j < self.entries[i].results.len()
            invariant
                i < self.entries.len(),
                0 <= j <= self.entries@[i as int].results.len(),
                out@.len() == j,
                forall|k: int| 0 <= k < j ==> out@[k]@ == self.entries@[i as int].results@[k]@,
            decreases self.entries@[i as int].results.len() - j,
        {
            out.push(self.entries[i].results[j].clone());
            j += 1;
        }
        assert(views(out@) =~= self@.experiments[i as int].results);
        Ok(out)
    }

    /// What is stored for `krate` and `toolchain` in `experiment`: the
    /// outcome and the log, as they were stored.
    pub fn get_result(&self, experiment: &str, krate: &Crate, toolchain: &Toolchain) -> (r:
        Fallible<Option<(TestResult, Option<EncodedLog>)>>)
        requires
            self@.wf(),
        ensures
            r is Ok,
            found_view(r.unwrap()) == stored_view(
                self@.result(experiment@, krate@.id(), toolchain@.text()),
            ),
    {
        let i = match self.position(experiment) {
            Some(i) => i,
            None => {
                return Ok(None);
            },
        };
        let id = krate.id();
        let tc = toolchain.to_string();
        match self.result_position(i, id.as_str(), tc.as_str()) {
            Some(j) => {
                let rec = &self.entries[i].results[j];
                assert(self@.experiments[i as int].results[j as int] == rec@);
                Ok(Some((rec.result.clone(), clone_opt_log(&rec.log))))
            },
            None => Ok(None),
        }
    }

    /// Drops every result of `experiment`. Nothing is done where there is
    /// no such experiment.
    pub fn delete_all_results(&mut self, experiment: &str) -> (r: Fallible<()>)
        requires
            old(self)@.wf(),
        ensures
            final(self)@.wf(),
            r is Ok,
            final(self)@ == old(self)@.without_results(experiment@),
    {
        let i = match self.position(experiment) {
            Some(i) => i,
            None => {
                return Ok(());
            },
        };
        let ghost before = self@;
        let ghost entry = before.experiments[i as int];
        assert(entry.wf());
        self.entries[i].results = Vec::new();
        proof {
            let target = ExperimentEntryView { results: Seq::empty(), ..entry };
            assert(self.entries@[i as int].model().results =~= Seq::empty());
            assert(self.entries@[i as int].model() == target);
            let after = before.without_results(experiment@);
            assert(self@.experiments =~= after.experiments);
            assert(self@ == after);
            assert(target.result_keys() =~= Seq::empty());
            assert(target.crate_ids() =~= entry.crate_ids());
            crate::db::lemma_key_index(before.names(), experiment@);
            assert forall|j: int|
                0 <= j < before.experiments.len() && j != i implies before.experiments[j].experiment.name
                != target.experiment.name by {
                assert(before.names()[j] == before.experiments[j].experiment.name);
            }
            crate::actions::experiments::lemma_update_keeps_wf(before, i as int, target);
        }
        Ok(())
    }

    /// The number of results of `experiment`.
    pub fn get_result_count(&self, experiment: &str) -> (r: Fallible<usize>)
        requires
            self@.wf(),
        ensures
            r == Ok::<usize, Error>(self@.result_count(experiment@) as usize),
    {
        match self.position(experiment) {
            Some(i) => Ok(self.entries[i].results.len()),
            None => Ok(0),
        }
    }

    /// Lists `krate` with `experiment`, left out of the run or not.
    /// `NotFound` where there is no such experiment; `AlreadyExists` where
    /// the package is listed; `Internal` where the list is full.
    pub fn add_crate(&mut self, experiment: &str, krate: &Crate, skipped: bool) -> (r: Fallible<()>)
        requires
            old(self)@.wf(),
        ensures
            final(self)@.wf(),
            old(self)@.add_crate_outcome(
                final(self)@,
                r,
                experiment@,
                ExperimentCrateView { krate: krate@.id(), skipped },
            ),
    {
        self.add_crate_id(experiment, krate.id(), skipped)
    }

    /// Lists the package with identifier `id` with `experiment`, left out
    /// of the run or not. `NotFound` where there is no such experiment;
    /// `AlreadyExists` where the package is listed; `Internal` where the
    /// list is full.
    pub fn add_crate_id(&mut self, experiment: &str, id: String, skipped: bool) -> (r: Fallible<()>)
        requires
            old(self)@.wf(),
        ensures
            final(self)@.wf(),
            old(self)@.add_crate_outcome(
                final(self)@,
                r,
                experiment@,
                ExperimentCrateView { krate: id@, skipped },
            ),
    {
        let i = match self.position(experiment) {
            Some(i) => i,
            None => {
                return Err(Error::NotFound);
            },
        };
        let ghost before = self@;
        let ghost entry = before.experiments[i as int];
        let ghost ids = entry.crate_ids();
        assert(entry.wf());
        let mut j: usize = 0;
        while j < self.entries[i].crates.len()
            invariant
                i < self.entries.len(),
                self@ == before,
                before == old(self)@,
                before.wf(),
                before.find(experiment@) == Some(i as int),
                entry == before.experiments[i as int],
                ids == entry.crate_ids(),
                ids.no_duplicates(),
                0 <= j <= self.entries@[i as int].crates.len(),
                forall|k: int| 0 <= k < j ==> ids[k] != id@,
            decreases self.entries@[i as int].crates.len() - j,
        {
            if str_eq(self.entries[i].crates[j].krate.as_str(), id.as_str()) {
                proof {
                    assert(ids[j as int] == id@);
                    lemma_key_found(ids, id@, j as int);
                }
                return Err(Error::AlreadyExists);
            }
            proof {
                assert(ids[j as int] == entry.crates[j as int].krate);
            }
            j += 1;
        }
        proof {
            lemma_key_absent(ids, id@);
        }
        if self.entries[i].crates.len() >= usize::MAX / 2 {
            return Err(Error::Internal);
        }
        let item = ExperimentCrate { krate: id, skipped };
        let ghost iv = item@;
        self.entries[i].crates.push(item);
        proof {
            let target = ExperimentEntryView { crates: entry.crates.push(iv), ..entry };
            assert(self.entries@[i as int].model().crates =~= entry.crates.push(iv));
            assert(self.entries@[i as int].model() == target);
            let after = DatabaseView {
                experiments: before.experiments.update(i as int, target),
                ..before
            };
            assert(self@.experiments =~= after.experiments);
            assert(self@ == after);
            assert(target.crate_ids() =~= ids.push(iv.krate));
            assert(target.result_keys() =~= entry.result_keys());
            crate::db::lemma_key_index(before.names(), experiment@);
            assert forall|j: int|
                0 <= j < before.experiments.len() && j != i implies before.experiments[j].experiment.name
                != target.experiment.name by {
                assert(before.names()[j] == before.experiments[j].experiment.name);
            }
            crate::actions::experiments::lemma_update_keeps_wf(before, i as int, target);
        }
        Ok(())
    }

    /// The packages listed with `experiment`, in the order in which they
    /// were listed. `NotFound` where there is no such experiment.
    pub fn experiment_crates(&self, experiment: &str) -> (r: Fallible<Vec<ExperimentCrate>>)
        requires
            self@.wf(),
        ensures
            match self@.entry(experiment@) {
                Some(entry) => r is Ok && views(r.unwrap()@) == entry.crates,
                None => r == Err::<Vec<ExperimentCrate>, Error>(Error::NotFound),
            },
    {
        let i = match self.position(experiment) {
            Some(i) => i,
            None => {
                return Err(Error::NotFound);
            },
        };
        let mut out: Vec<ExperimentCrate> = Vec::new();
        let mut j: usize = 0;
        while j < self.entries[i].crates.len()
            invariant
                i < self.entries.len(),
                0 <= j <= self.entries@[i as int].crates.len(),
                out@.len() == j,
                forall|k: int| 0 <= k < j ==> out@[k]@ == self.entries@[i as int].crates@[k]@,
            decreases self.entries@[i as int].crates.len() - j,
        {
            out.push(self.entries[i].crates[j].clone());
            j += 1;
        }
        assert(views(out@) =~= self@.experiments[i as int].crates);
        Ok(out)
    }

    /// How far `experiment` has come: the runs that are done, and the runs
    /// there are to do. `NotFound` where there is no such experiment.
    pub fn get_experiment_progress(&self, experiment: &str) -> (r: Fallible<(usize, usize)>)
        requires
            self@.wf(),
        ensures
            match self@.entry(experiment@) {
                Some(entry) => r == Ok::<(usize, usize), Error>(
                    (entry.completed() as usize, entry.total() as usize),
                ) && entry.completed() <= entry.total() <= usize::MAX,
                None => r == Err::<(usize, usize), Error>(Error::NotFound),
            },
    {
        let i = match self.position(experiment) {
            Some(i) => i,
            None => {
                return Err(Error::NotFound);
            },
        };
        let ghost entry = self@.experiments[i as int];
        assert(entry.wf());
        let start = self.entries[i].experiment.toolchains[0].to_string();
        let end = self.entries[i].experiment.toolchains[1].to_string();
        let mut completed: usize = 0;
        let mut active: usize = 0;
        let mut j: usize = 0;
        while j < self.entries[i].crates.len()
            invariant
                self@.wf(),
                i < self.entries.len(),
                entry == self@.experiments[i as int],
                entry.wf(),
                start@ == entry.experiment.toolchains[0].text(),
                end@ == entry.experiment.toolchains[1].text(),
                0 <= j <= self.entries@[i as int].crates.len(),
                completed == entry.completed_upto(j as int),
                active == entry.active_upto(j as int),
            decreases self.entries@[i as int].crates.len() - j,
        {
            proof {
                entry.lemma_progress_bounds(j as int);
                entry.lemma_progress_bounds(j + 1);
                assert(entry.crates[j as int] == self.entries@[i as int].crates@[j as int]@);
            }
            if !self.entries[i].crates[j].skipped {
                let id = self.entries[i].crates[j].krate.as_str();
                if self.result_position(i, id, start.as_str()).is_some() {
                    completed += 1;
                }
                if self.result_position(i, id, end.as_str()).is_some() {
                    completed += 1;
                }
                active += 1;
            }
            j += 1;
        }
        proof {
            entry.lemma_progress_bounds(entry.crates.len() as int);
        }
        Ok((completed, 2 * active))
    }
}

impl ExperimentEntryView {
    /// The run of `krate` with `toolchain` as the report holds it, where
    /// a result is stored for the two. The report holds no place of a log.
    pub open spec fn run_of(self, krate: Seq<char>, toolchain: Seq<char>) -> Option<
        crate::report::RunResultView,
    > {
        match self.result(krate, toolchain) {
            Some(rec) => Some(crate::report::RunResultView { result: rec.result, log: Seq::empty() }),
            None => None,
        }
    }

    /// The outcome of `krate` with `toolchain`, where a result is stored
    /// for the two.
    pub open spec fn outcome_of(self, krate: Seq<char>, toolchain: Seq<char>) -> Option<
        TestResultView,
    > {
        match self.result(krate, toolchain) {
            Some(rec) => Some(rec.result),
            None => None,
        }
    }

    /// What the report says of the package with identifier `id`, which
    /// stands for `krate`, tested with the toolchains `start` and `end`:
    /// the two runs, and how their outcomes compare.
    pub open spec fn crate_result(
        self,
        id: Seq<char>,
        krate: CrateView,
        start: Seq<char>,
        end: Seq<char>,
    ) -> crate::report::CrateResultView {
        crate::report::CrateResultView {
            name: krate.text(),
            url: Seq::empty(),
            krate,
            status: None,
            res: crate::report::analyzer::spec_compare(
                self.outcome_of(id, start),
                self.outcome_of(id, end),
            ),
            runs: seq![self.run_of(id, start), self.run_of(id, end)],
        }
    }

    /// What the report says of the first `n` listed packages, in their
    /// order, those that are left out passed over; nothing where the
    /// identifier of one that is not left out stands for no package.
    pub open spec fn raw_upto(self, n: int, start: Seq<char>, end: Seq<char>) -> Option<
        Seq<crate::report::CrateResultView>,
    >
        decreases n,
    {
        if n <= 0 {
            Some(Seq::empty())
        } else {
            match self.raw_upto(n - 1, start, end) {
                None => None,
                Some(before) => if self.crates[n - 1].skipped {
                    Some(before)
                } else {
                    match crate::crates::spec_parse(self.crates[n - 1].krate) {
                        Some(krate) => Some(
                            before.push(
                                self.crate_result(self.crates[n - 1].krate, krate, start, end),
                            ),
                        ),
                        None => None,
                    }
                },
            }
        }
    }
}

impl Database {
    /// The outcome stored for a package and a toolchain with the
    /// experiment at `i`.
    fn outcome_at(&self, i: usize, krate: &str, toolchain: &str) -> (r: Option<TestResult>)
        requires
            self@.wf(),
            i < self.entries.len(),
        ensures
            opt_view(r) == self@.experiments[i as int].outcome_of(krate@, toolchain@),
    {
        match self.result_position(i, krate, toolchain) {
            Some(j) => {
                let rec = &self.entries[i].results[j];
                assert(self@.experiments[i as int].results[j as int] == rec@);
                Some(rec.result.clone())
            },
            None => None,
        }
    }
}

fn run_result(outcome: &Option<TestResult>) -> (r: Option<crate::report::RunResult>)
    ensures
        opt_view(r) == (match opt_view(*outcome) {
            Some(result) => Some(crate::report::RunResultView { result, log: Seq::empty() }),
            None => None,
        }),
{
    match outcome {
        Some(result) => Some(crate::report::RunResult { result: result.clone(), log: String::new() }),
        None => None,
    }
}

impl Database {
    /// The results of the experiment called `ex.name`, as the report takes
    /// them: one for each listed package that is not left out, with the
    /// runs with the two toolchains of `ex` and how their outcomes
    /// compare. `NotFound` where there is no such experiment; `Internal`
    /// where the identifier of a listed package stands for no package.
    pub fn load_all_results(&self, ex: &crate::experiments::Experiment) -> (r: Fallible<
        crate::report::RawTestResults,
    >)
        requires
            self@.wf(),
        ensures
            match self@.entry(ex.name@) {
                None => r is Err && r.unwrap_err() == Error::NotFound,
                Some(entry) => match entry.raw_upto(
                    entry.crates.len() as int,
                    ex.toolchains@[0]@.text(),
                    ex.toolchains@[1]@.text(),
                ) {
                    Some(all) => r is Ok && views(r.unwrap().crates@) == all,
                    None => r is Err && r.unwrap_err() == Error::Internal,
                },
            },
    {
        let i = match self.position(ex.name.as_str()) {
            Some(i) => i,
            None => {
                return Err(Error::NotFound);
            },
        };
        let ghost entry = self@.experiments[i as int];
        let start = ex.toolchains[0].to_string();
        let end = ex.toolchains[1].to_string();
        let mut out: Vec<crate::report::CrateResult> = Vec::new();
        let mut j: usize = 0;
        assert(views(out@) =~= Seq::empty());
        while j < self.entries[i].crates.len()
            invariant
                self@.wf(),
                i < self.entries.len(),
                entry == self@.experiments[i as int],
                self@.entry(ex.name@) == Some(entry),
                start@ == ex.toolchains@[0]@.text(),
                end@ == ex.toolchains@[1]@.text(),
                0 <= j <= self.entries@[i as int].crates.len(),
                entry.raw_upto(j as int, start@, end@) == Some(views(out@)),
            decreases self.entries@[i as int].crates.len() - j,
        {
            let listed = &self.entries[i].crates[j];
            assert(entry.crates[j as int] == listed@);
            if !listed.skipped {
                let krate = match Crate::from_str(listed.krate.as_str()) {
                    Ok(k) => k,
                    Err(_) => {
                        proof {
                            lemma_raw_fails_from(entry, j + 1, entry.crates.len() as int, start@, end@);
                        }
                        return Err(Error::Internal);
                    },
                };
                let a = self.outcome_at(i, listed.krate.as_str(), start.as_str());
                let b = self.outcome_at(i, listed.krate.as_str(), end.as_str());
                let res = crate::report::analyzer::compare_results(&a, &b);
                let runs = [run_result(&a), run_result(&b)];
                let ghost before = views(out@);
                let item = crate::report::CrateResult {
                    name: krate.to_string(),
                    url: String::new(),
                    krate,
                    status: None,
                    res,
                    runs,
                };
                proof {
                    assert(item@.runs =~= seq![
                        entry.run_of(listed.krate@, start@),
                        entry.run_of(listed.krate@, end@),
                    ]);
                    assert(item@ == entry.crate_result(listed.krate@, krate@, start@, end@));
                }
                out.push(item);
                assert(views(out@) =~= before.push(item@));
            }
            j += 1;
        }
        Ok(crate::report::RawTestResults { crates: out })
    }
}

/// Where the report on the first packages cannot be made, the report on
/// more of them cannot be made.
proof fn lemma_raw_fails_from(
    entry: ExperimentEntryView,
    n: int,
    m: int,
    start: Seq<char>,
    end: Seq<char>,
)
    requires
        0 <= n <= m,
        entry.raw_upto(n, start, end) is None,
    ensures
        entry.raw_upto(m, start, end) is None,
    decreases m - n,
{
    if n < m {
        lemma_raw_fails_from(entry, n, m - 1, start, end);
    }
}

/// The store of results, seen by itself: a store through which results
/// alone are written and read.
pub struct DatabaseDB {
    db: Database,
}

impl View for DatabaseDB {
    type V = DatabaseView;

    closed spec fn view(&self) -> DatabaseView {
        self.db@
    }
}

impl DatabaseDB {
    #[verifier::type_invariant]
    closed spec fn inv(&self) -> bool {
        self.db@.wf()
    }

    pub fn new(db: Database) -> (r: Self)
        requires
            db@.wf(),
        ensures
            r@ == db@,
    {
        DatabaseDB { db }
    }

    /// The store underneath.
    pub fn into_inner(self) -> (r: Database)
        ensures
            r@ == self@,
            r@.wf(),
    {
        proof {
            use_type_invariant(&self);
        }
        self.db
    }

    /// Stores what testing `krate` with `toolchain` came to in
    /// `experiment`. `NotFound` where there is no such experiment.
    pub fn store_result(
        &mut self,
        experiment: &str,
        krate: &Crate,
        toolchain: &Toolchain,
        result: &TestResult,
        log: Option<&EncodedLog>,
    ) -> (r: Fallible<()>)
        ensures
            old(self)@.store_outcome(
                final(self)@,
                r,
                experiment@,
                record_view(
                    krate@,
                    toolchain@,
                    result@,
                    match log {
                        Some(l) => Some(l@),
                        None => None,
                    },
                ),
            ),
    {
        proof {
            use_type_invariant(&*self);
        }
        let mut db = Database::new();
        std::mem::swap(&mut db, &mut self.db);
        let r = db.store_result(experiment, krate, toolchain, result, log);
        std::mem::swap(&mut db, &mut self.db);
        r
    }

    /// What is stored for `krate` and `toolchain` in `experiment`.
    pub fn get_result(&self, experiment: &str, krate: &Crate, toolchain: &Toolchain) -> (r:
        Fallible<Option<(TestResult, Option<EncodedLog>)>>)
        ensures
            r is Ok,
            found_view(r.unwrap()) == stored_view(
                self@.result(experiment@, krate@.id(), toolchain@.text()),
            ),
    {
        proof {
            use_type_invariant(self);
        }
        self.db.get_result(experiment, krate, toolchain)
    }

    /// Drops every result of `experiment`.
    pub fn delete_all_results(&mut self, experiment: &str) -> (r: Fallible<()>)
        ensures
            r is Ok,
            final(self)@ == old(self)@.without_results(experiment@),
    {
        proof {
            use_type_invariant(&*self);
        }
        let mut db = Database::new();
        std::mem::swap(&mut db, &mut self.db);
        let r = db.delete_all_results(experiment);
        std::mem::swap(&mut db, &mut self.db);
        r
    }

    /// The number of results of `experiment`.
    pub fn get_result_count(&self, experiment: &str) -> (r: Fallible<usize>)
        ensures
            r == Ok::<usize, Error>(self@.result_count(experiment@) as usize),
    {
        proof {
            use_type_invariant(self);
        }
        self.db.get_result_count(experiment)
    }
}

impl crate::runner::worker::RecordProgress for DatabaseDB {
    /// Stores the outcome with the experiment, the log as plain bytes.
    fn record_progress(
        &mut self,
        ex: &crate::experiments::Experiment,
        krate: &Crate,
        toolchain: &Toolchain,
        log: &[u8],
        result: &TestResult,
        version: Option<(&Crate, &Crate)>,
    ) -> (r: Fallible<()>)
        ensures
            old(self)@.store_outcome(
                final(self)@,
                r,
                ex.name@,
                record_view(krate@, toolchain@, result@, Some(EncodedLogView::Plain(log@))),
            ),
    {
        let stored = EncodedLog::from_plain_slice(log);
        self.store_result(ex.name.as_str(), krate, toolchain, result, Some(&stored))
    }
}

impl crate::report::ReadResults for DatabaseDB {
    /// The results of the experiment called `ex.name`, as the report takes
    /// them.
    fn load_all_results(&self, ex: &crate::experiments::Experiment) -> (r: Fallible<
        crate::report::RawTestResults,
    >)
        ensures
            match self@.entry(ex.name@) {
                None => r is Err && r.unwrap_err() == Error::NotFound,
                Some(entry) => match entry.raw_upto(
                    entry.crates.len() as int,
                    ex.toolchains@[0]@.text(),
                    ex.toolchains@[1]@.text(),
                ) {
                    Some(all) => r is Ok && views(r.unwrap().crates@) == all,
                    None => r is Err && r.unwrap_err() == Error::Internal,
                },
            },
    {
        proof {
            use_type_invariant(self);
        }
        self.db.load_all_results(ex)
    }
}

} // verus!
