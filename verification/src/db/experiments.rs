//! The state of the store and what holds of it.

use crate::crates::{Crate, CrateView};
use crate::db::{key_index, lemma_key_absent, lemma_key_found};
use crate::experiments::{
    parse_issue_fields, parse_time_field, parse_toolchain_fields, Assignee, CapLints, CrateSelect,
    CrateSelectView, Experiment, ExperimentDBRecord, ExperimentView, Mode, Status,
};
use crate::model::{clone_opt_string, opt_view, views};
use crate::results::{clone_opt_log, EncodedLog, EncodedLogView, TestResult, TestResultView};
use crate::server::agents::{Agent, AgentView};
use crate::server::tokens::{ApiToken, ApiTokenView};
use crate::text::str_eq;
use crate::time::Timestamp;
use crate::Error;
use vstd::prelude::*;

verus! {

/// What is kept about an experiment beside the experiment itself.
#[derive(Debug, PartialEq, Eq)]
pub struct ExperimentMetadata {
    /// Where notices about the experiment are sent.
    pub callback_url: Option<String>,
    /// The tracker the experiment was asked for on.
    pub platform: Option<String>,
    pub triggered_by: Option<String>,
    pub created_at: Timestamp,
}

pub struct ExperimentMetadataView {
    pub callback_url: Option<Seq<char>>,
    pub platform: Option<Seq<char>>,
    pub triggered_by: Option<Seq<char>>,
    pub created_at: Timestamp,
}

impl View for ExperimentMetadata {
    type V = ExperimentMetadataView;

    open spec fn view(&self) -> ExperimentMetadataView {
        ExperimentMetadataView {
            callback_url: opt_view(self.callback_url),
            platform: opt_view(self.platform),
            triggered_by: opt_view(self.triggered_by),
            created_at: self.created_at,
        }
    }
}

impl Clone for ExperimentMetadata {
    fn clone(&self) -> (r: Self)
        ensures
            r@ == self@,
    {
        ExperimentMetadata {
            callback_url: clone_opt_string(&self.callback_url),
            platform: clone_opt_string(&self.platform),
            triggered_by: clone_opt_string(&self.triggered_by),
            created_at: self.created_at,
        }
    }
}

/// A package on the list of an experiment.
#[derive(Debug, PartialEq, Eq)]
pub struct ExperimentCrate {
    /// The identifier of the package.
    pub krate: String,
    /// Whether the package is left out of the run.
    pub skipped: bool,
}

pub struct ExperimentCrateView {
    pub krate: Seq<char>,
    pub skipped: bool,
}

impl View for ExperimentCrate {
    type V = ExperimentCrateView;

    open spec fn view(&self) -> ExperimentCrateView {
        ExperimentCrateView { krate: self.krate@, skipped: self.skipped }
    }
}

impl Clone for ExperimentCrate {
    fn clone(&self) -> (r: Self)
        ensures
            r@ == self@,
    {
        ExperimentCrate { krate: self.krate.clone(), skipped: self.skipped }
    }
}

/// What testing one package with one toolchain came to, as it is stored.
#[derive(Debug, PartialEq, Eq)]
pub struct ResultRecord {
    /// The identifier of the package.
    pub krate: String,
    /// The string form of the toolchain.
    pub toolchain: String,
    pub result: TestResult,
    pub log: Option<EncodedLog>,
}

pub struct ResultRecordView {
    pub krate: Seq<char>,
    pub toolchain: Seq<char>,
    pub result: TestResultView,
    pub log: Option<EncodedLogView>,
}

impl View for ResultRecord {
    type V = ResultRecordView;

    open spec fn view(&self) -> ResultRecordView {
        ResultRecordView {
            krate: self.krate@,
            toolchain: self.toolchain@,
            result: self.result@,
            log: opt_view(self.log),
        }
    }
}

impl Clone for ResultRecord {
    fn clone(&self) -> (r: Self)
        ensures
            r@ == self@,
    {
        ResultRecord {
            krate: self.krate.clone(),
            toolchain: self.toolchain.clone(),
            result: self.result.clone(),
            log: clone_opt_log(&self.log),
        }
    }
}

impl ResultRecordView {
    /// What a result is stored under within its experiment.
    pub open spec fn key(self) -> (Seq<char>, Seq<char>) {
        (self.krate, self.toolchain)
    }
}

/// An experiment with everything that belongs to it. What belongs to an
/// experiment goes where the experiment goes: it follows a new name, and
/// leaves the store with the experiment.
pub struct ExperimentEntry {
    pub(crate) experiment: Experiment,
    pub(crate) crate_select: CrateSelect,
    pub(crate) metadata: Option<ExperimentMetadata>,
    pub(crate) crates: Vec<ExperimentCrate>,
    pub(crate) results: Vec<ResultRecord>,
}

pub struct ExperimentEntryView {
    pub experiment: ExperimentView,
    pub crate_select: CrateSelectView,
    pub metadata: Option<ExperimentMetadataView>,
    pub crates: Seq<ExperimentCrateView>,
    pub results: Seq<ResultRecordView>,
}

impl ExperimentEntry {
    pub open(crate) spec fn model(&self) -> ExperimentEntryView {
        ExperimentEntryView {
            experiment: self.experiment@,
            crate_select: self.crate_select@,
            metadata: opt_view(self.metadata),
            crates: views(self.crates@),
            results: views(self.results@),
        }
    }
}

impl ExperimentEntryView {
    /// The identifiers of the listed packages.
    pub open spec fn crate_ids(self) -> Seq<Seq<char>> {
        Seq::new(self.crates.len(), |i: int| self.crates[i].krate)
    }

    /// The keys of the stored results.
    pub open spec fn result_keys(self) -> Seq<(Seq<char>, Seq<char>)> {
        Seq::new(self.results.len(), |i: int| self.results[i].key())
    }

    /// The result stored for a package and a toolchain, where there is one.
    pub open spec fn result(self, krate: Seq<char>, toolchain: Seq<char>) -> Option<
        ResultRecordView,
    > {
        match key_index(self.result_keys(), (krate, toolchain)) {
            Some(i) => Some(self.results[i]),
            None => None,
        }
    }

    /// What holds of every stored experiment: its life is in order, no
    /// package is listed twice, and no two results share a key.
    pub open spec fn wf(self) -> bool {
        &&& self.experiment.lifecycle_ok()
        &&& self.crate_ids().no_duplicates()
        &&& self.result_keys().no_duplicates()
        &&& 2 * self.crates.len() <= usize::MAX
    }
}

/// The store.
pub struct Database {
    pub(crate) entries: Vec<ExperimentEntry>,
    pub(crate) agents: Vec<Agent>,
    pub(crate) tokens: Vec<ApiToken>,
    pub(crate) migrations: Vec<String>,
}

pub struct DatabaseView {
    /// The experiments, newest first.
    pub experiments: Seq<ExperimentEntryView>,
    /// The workers, in the order in which they registered.
    pub agents: Seq<AgentView>,
    /// The tokens, in the order in which they were made.
    pub tokens: Seq<ApiTokenView>,
    /// The names of the layout steps that were applied, in order.
    pub migrations: Seq<Seq<char>>,
}

impl DatabaseView {
    /// The names of the experiments.
    pub open spec fn names(self) -> Seq<Seq<char>> {
        Seq::new(self.experiments.len(), |i: int| self.experiments[i].experiment.name)
    }

    /// The identifiers of the workers.
    pub open spec fn agent_ids(self) -> Seq<Seq<char>> {
        Seq::new(self.agents.len(), |i: int| self.agents[i].id)
    }

    /// The token strings.
    pub open spec fn token_keys(self) -> Seq<Seq<char>> {
        Seq::new(self.tokens.len(), |i: int| self.tokens[i].token)
    }

    /// Where the experiment called `name` stands.
    pub open spec fn find(self, name: Seq<char>) -> Option<int> {
        key_index(self.names(), name)
    }

    /// The experiment called `name`, with what belongs to it.
    pub open spec fn entry(self, name: Seq<char>) -> Option<ExperimentEntryView> {
        match self.find(name) {
            Some(i) => Some(self.experiments[i]),
            None => None,
        }
    }

    /// The experiment called `name`.
    pub open spec fn experiment(self, name: Seq<char>) -> Option<ExperimentView> {
        match self.find(name) {
            Some(i) => Some(self.experiments[i].experiment),
            None => None,
        }
    }

    /// Where the worker with identifier `id` stands.
    pub open spec fn find_agent(self, id: Seq<char>) -> Option<int> {
        key_index(self.agent_ids(), id)
    }

    /// Where the token `token` stands.
    pub open spec fn find_token(self, token: Seq<char>) -> Option<int> {
        key_index(self.token_keys(), token)
    }

    /// The experiments stand newest first.
    pub open spec fn newest_first(self) -> bool {
        forall|i: int, j: int|
            0 <= i < j < self.experiments.len()
                ==> self.experiments[i].experiment.created_at.total_nanos()
                >= self.experiments[j].experiment.created_at.total_nanos()
    }

    /// What holds of the store at all times: no two experiments share a
    /// name, no two workers an identifier, no two tokens a string; each
    /// experiment is in order; a worker has an experiment exactly when it is
    /// busy; and the experiments stand newest first.
    pub open spec fn wf(self) -> bool {
        &&& self.names().no_duplicates()
        &&& self.agent_ids().no_duplicates()
        &&& self.token_keys().no_duplicates()
        &&& forall|i: int| 0 <= i < self.experiments.len() ==> (#[trigger] self.experiments[i]).wf()
        &&& forall|i: int| 0 <= i < self.agents.len() ==> (#[trigger] self.agents[i]).consistent()
        &&& self.newest_first()
    }

    /// The store that holds nothing.
    pub open spec fn empty() -> DatabaseView {
        DatabaseView {
            experiments: Seq::empty(),
            agents: Seq::empty(),
            tokens: Seq::empty(),
            migrations: Seq::empty(),
        }
    }
}

impl View for Database {
    type V = DatabaseView;

    open(crate) spec fn view(&self) -> DatabaseView {
        DatabaseView {
            experiments: Seq::new(self.entries@.len(), |i: int| self.entries@[i].model()),
            agents: views(self.agents@),
            tokens: views(self.tokens@),
            migrations: views(self.migrations@),
        }
    }
}

impl Database {
    /// A store that holds nothing and has no layout step applied.
    pub fn new() -> (r: Self)
        ensures
            r@ == DatabaseView::empty(),
            r@.wf(),
    {
        let r = Database {
            entries: Vec::new(),
            agents: Vec::new(),
            tokens: Vec::new(),
            migrations: Vec::new(),
        };
        assert(r@.experiments =~= Seq::empty());
        assert(r@.agents =~= Seq::empty());
        assert(r@.tokens =~= Seq::empty());
        assert(r@.migrations =~= Seq::empty());
        r
    }

    /// The experiment that a row of the store stands for; `Internal` where
    /// a part of the row does not parse.
    pub fn parse_experiment(record: &ExperimentDBRecord) -> (r: Result<Experiment, Error>)
        ensures
            match record@.parse() {
                Some(e) => r is Ok && r.unwrap()@ == e,
                None => r == Err::<Experiment, Error>(Error::Internal),
            },
    {
        let mode = match Mode::from_str(record.mode.as_str()) {
            Ok(m) => m,
            Err(_) => {
                return Err(Error::Internal);
            },
        };
        let cap_lints = match CapLints::from_str(record.cap_lints.as_str()) {
            Ok(c) => c,
            Err(_) => {
                return Err(Error::Internal);
            },
        };
        let status = match Status::from_str(record.status.as_str()) {
            Ok(s) => s,
            Err(_) => {
                return Err(Error::Internal);
            },
        };
        let created_at = match Timestamp::parse_from_rfc3339(record.created_at.as_str()) {
            Ok(t) => t,
            Err(_) => {
                return Err(Error::Internal);
            },
        };
        let started_at = match parse_time_field(&record.started_at) {
            Ok(t) => t,
            Err(_) => {
                return Err(Error::Internal);
            },
        };
        let completed_at = match parse_time_field(&record.completed_at) {
            Ok(t) => t,
            Err(_) => {
                return Err(Error::Internal);
            },
        };
        let toolchains = match parse_toolchain_fields(
            &record.toolchain_start,
            &record.toolchain_end,
        ) {
            Ok(t) => t,
            Err(_) => {
                return Err(Error::Internal);
            },
        };
        let assigned_to = match &record.assigned_to {
            Some(a) => match Assignee::from_str(a.as_str()) {
                Ok(x) => Some(x),
                Err(_) => {
                    return Err(Error::Internal);
                },
            },
            None => None,
        };
        Ok(
            Experiment {
                name: record.name.clone(),
                toolchains,
                mode,
                cap_lints,
                priority: record.priority,
                created_at,
                started_at,
                completed_at,
                platform_issue: parse_issue_fields(
                    &record.platform_issue,
                    &record.platform_issue_url,
                    &record.platform_issue_identifier,
                ),
                status,
                assigned_to,
                report_url: clone_opt_string(&record.report_url),
                ignore_blacklist: record.ignore_blacklist,
                requirement: clone_opt_string(&record.requirement),
            },
        )
    }

    /// Where the experiment called `name` stands.
    pub(crate) fn position(&self, name: &str) -> (r: Option<usize>)
        requires
            self@.wf(),
        ensures
            match r {
                Some(i) => self@.find(name@) == Some(i as int) && i < self.entries.len()
                    && self.entries@[i as int].experiment.name@ == name@,
                None => self@.find(name@) is None,
            },
    {
        let mut i: usize = 0;
        while i < self.entries.len()
            invariant
                0 <= i <= self.entries.len(),
                self@.wf(),
                forall|j: int| 0 <= j < i ==> self@.names()[j] != name@,
            decreases self.entries.len() - i,
        {
            if str_eq(self.entries[i].experiment.name.as_str(), name) {
                proof {
                    assert(self@.names()[i as int] == name@);
                    lemma_key_found(self@.names(), name@, i as int);
                }
                return Some(i);
            }
            i += 1;
        }
        proof {
            lemma_key_absent(self@.names(), name@);
        }
        None
    }
}

} // verus!
