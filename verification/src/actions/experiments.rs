//! The registry of experiments: their creation, their edits, and the
//! transitions of their life.

use crate::db::experiments::{
    Database, DatabaseView, ExperimentEntry, ExperimentEntryView, ExperimentMetadata,
    ExperimentMetadataView,
};
use crate::experiments::{
    clone_opt_issue, Assignee, AssigneeView, CapLints, CrateSelect, CrateSelectView, Experiment,
    ExperimentView, Mode, PlatformIssue, PlatformIssueView, Status,
};
use crate::model::{clone_opt_string, opt_view, views};
use crate::text::str_eq;
use crate::time::Timestamp;
use crate::toolchain::{Toolchain, ToolchainView};
use crate::{Error, Fallible};
use vstd::prelude::*;

verus! {

/// What is asked for when an experiment is created.
#[derive(Debug)]
pub struct CreateExperiment {
    pub name: String,
    pub toolchains: [Toolchain; 2],
    pub mode: Mode,
    pub crate_select: CrateSelect,
    pub platform_issue: Option<PlatformIssue>,
    pub callback_url: Option<String>,
    pub priority: i32,
}

pub struct CreateExperimentView {
    pub name: Seq<char>,
    pub toolchains: Seq<ToolchainView>,
    pub mode: Mode,
    pub crate_select: CrateSelectView,
    pub platform_issue: Option<PlatformIssueView>,
    pub callback_url: Option<Seq<char>>,
    pub priority: i32,
}

impl View for CreateExperiment {
    type V = CreateExperimentView;

    open spec fn view(&self) -> CreateExperimentView {
        CreateExperimentView {
            name: self.name@,
            toolchains: views(self.toolchains@),
            mode: self.mode,
            crate_select: self.crate_select@,
            platform_issue: opt_view(self.platform_issue),
            callback_url: opt_view(self.callback_url),
            priority: self.priority,
        }
    }
}

impl Clone for CreateExperiment {
    fn clone(&self) -> (r: Self)
        ensures
            r@ == self@,
    {
        let toolchains = [self.toolchains[0].clone(), self.toolchains[1].clone()];
        assert(views(toolchains@) =~= views(self.toolchains@));
        CreateExperiment {
            name: self.name.clone(),
            toolchains,
            mode: self.mode,
            crate_select: self.crate_select.clone(),
            platform_issue: clone_opt_issue(&self.platform_issue),
            callback_url: clone_opt_string(&self.callback_url),
            priority: self.priority,
        }
    }
}

/// What is asked for when an experiment is edited: each part that is given
/// replaces what the experiment has.
#[derive(Debug)]
pub struct EditExperiment {
    pub name: Option<String>,
    pub mode: Option<Mode>,
    pub crate_select: Option<CrateSelect>,
    pub platform_issue: Option<PlatformIssue>,
    pub callback_url: Option<String>,
    pub priority: Option<i32>,
}

pub struct EditExperimentView {
    pub name: Option<Seq<char>>,
    pub mode: Option<Mode>,
    pub crate_select: Option<CrateSelectView>,
    pub platform_issue: Option<PlatformIssueView>,
    pub callback_url: Option<Seq<char>>,
    pub priority: Option<i32>,
}

impl View for EditExperiment {
    type V = EditExperimentView;

    open spec fn view(&self) -> EditExperimentView {
        EditExperimentView {
            name: opt_view(self.name),
            mode: self.mode,
            crate_select: opt_view(self.crate_select),
            platform_issue: opt_view(self.platform_issue),
            callback_url: opt_view(self.callback_url),
            priority: self.priority,
        }
    }
}

impl EditExperimentView {
    /// The edit that changes nothing.
    pub open spec fn nothing() -> EditExperimentView {
        EditExperimentView {
            name: None,
            mode: None,
            crate_select: None,
            platform_issue: None,
            callback_url: None,
            priority: None,
        }
    }
}

impl Default for EditExperiment {
    fn default() -> (r: Self)
        ensures
            r@ == EditExperimentView::nothing(),
    {
        EditExperiment {
            name: None,
            mode: None,
            crate_select: None,
            platform_issue: None,
            callback_url: None,
            priority: None,
        }
    }
}

/// The later of two instants.
pub open spec fn later(a: Timestamp, b: Timestamp) -> Timestamp {
    if a.total_nanos() >= b.total_nanos() {
        a
    } else {
        b
    }
}

/// The later of two instants.
pub fn later_of(a: Timestamp, b: Timestamp) -> (r: Timestamp)
    ensures
        r == later(a, b),
{
    if a.is_before(&b) {
        b
    } else {
        a
    }
}

/// The steps that the life of an experiment is made of.
pub open spec fn legal_transition(from: Status, to: Status) -> bool {
    match (from, to) {
        (Status::Queued, Status::Running) => true,
        (Status::Running, Status::Completed) => true,
        (Status::Running, Status::ReportFailed) => true,
        (Status::Running, Status::NeedsReport) => true,
        (Status::NeedsReport, Status::GeneratingReport) => true,
        (Status::GeneratingReport, Status::Completed) => true,
        (Status::GeneratingReport, Status::ReportFailed) => true,
        _ => false,
    }
}

/// Whether a step is one that the life of an experiment is made of.
pub fn is_legal_transition(from: Status, to: Status) -> (r: bool)
    ensures
        r == legal_transition(from, to),
{
    match (from, to) {
        (Status::Queued, Status::Running) => true,
        (Status::Running, Status::Completed) => true,
        (Status::Running, Status::ReportFailed) => true,
        (Status::Running, Status::NeedsReport) => true,
        (Status::NeedsReport, Status::GeneratingReport) => true,
        (Status::GeneratingReport, Status::Completed) => true,
        (Status::GeneratingReport, Status::ReportFailed) => true,
        _ => false,
    }
}

impl ExperimentView {
    /// The experiment after a step to `to` taken at `now`. Entering
    /// `running` sets the start time, entering `completed` or
    /// `report-failed` the end time; a time is never set earlier than the
    /// one before it.
    pub open spec fn after_transition(self, to: Status, now: Timestamp) -> ExperimentView {
        ExperimentView {
            status: to,
            started_at: if to == Status::Running {
                Some(later(now, self.created_at))
            } else {
                self.started_at
            },
            completed_at: if to == Status::Completed || to == Status::ReportFailed {
                Some(later(now, self.started_at.unwrap()))
            } else {
                self.completed_at
            },
            ..self
        }
    }
}

impl DatabaseView {
    /// The store with the experiment at `i` replaced.
    pub open spec fn with_experiment(self, i: int, e: ExperimentView) -> DatabaseView {
        DatabaseView {
            experiments: self.experiments.update(
                i,
                ExperimentEntryView { experiment: e, ..self.experiments[i] },
            ),
            ..self
        }
    }
}

impl Database {
    /// Takes the experiment called `name` one step along its life, at
    /// `now`. `NotFound` where there is no such experiment; `InvalidState`
    /// where the step is none that its life is made of; in both cases the
    /// store stays as it is.
    pub fn transition_at(&mut self, name: &str, to: Status, now: Timestamp) -> (r: Fallible<()>)
        requires
            old(self)@.wf(),
        ensures
            final(self)@.wf(),
            match old(self)@.find(name@) {
                None => r == Err::<(), Error>(Error::NotFound) && final(self)@ == old(self)@,
                Some(i) => {
                    let e = old(self)@.experiments[i].experiment;
                    if legal_transition(e.status, to) {
                        r == Ok::<(), Error>(()) && final(self)@ == old(self)@.with_experiment(
                            i,
                            e.after_transition(to, now),
                        )
                    } else {
                        r == Err::<(), Error>(Error::InvalidState) && final(self)@ == old(self)@
                    }
                },
            },
    {
        let i = match self.position(name) {
            Some(i) => i,
            None => {
                return Err(Error::NotFound);
            },
        };
        let from = self.entries[i].experiment.status;
        if !is_legal_transition(from, to) {
            return Err(Error::InvalidState);
        }
        let ghost before = self@;
        let ghost e = before.experiments[i as int].experiment;
        assert(before.experiments[i as int].wf());
        if to == Status::Running {
            let created = self.entries[i].experiment.created_at;
            self.entries[i].experiment.started_at = Some(later_of(now, created));
        }
        if to == Status::Completed || to == Status::ReportFailed {
            let started = self.entries[i].experiment.started_at;
            match started {
                Some(s) => {
                    self.entries[i].experiment.completed_at = Some(later_of(now, s));
                },
                None => {},
            }
        }
        self.entries[i].experiment.status = to;
        proof {
            let after = before.with_experiment(i as int, e.after_transition(to, now));
            assert(self@.experiments =~= after.experiments);
            assert(self@ == after);
            assert(after.names() =~= before.names());
            assert(after.experiments[i as int].wf());
        }
        Ok(())
    }
}

/// The number of experiments at the front of `entries` that were created
/// after `now`. Among experiments that stand newest first, a new one
/// created at `now` belongs right behind them.
pub open spec fn leading_newer(entries: Seq<ExperimentEntryView>, now: Timestamp) -> int
    decreases entries.len(),
{
    if entries.len() > 0 && entries[0].experiment.created_at.total_nanos() > now.total_nanos() {
        1 + leading_newer(entries.skip(1), now)
    } else {
        0
    }
}

/// The tag of the tracker that an experiment was asked for on, `unknown`
/// where it was asked for on none.
pub open spec fn platform_tag(issue: Option<PlatformIssueView>) -> Seq<char> {
    match issue {
        Some(i) => i.platform,
        None => "unknown"@,
    }
}

impl CreateExperimentView {
    /// The experiment that a request makes at `now`: queued, with neither
    /// start nor end, lints capped at warnings.
    pub open spec fn experiment(self, now: Timestamp) -> ExperimentView {
        ExperimentView {
            name: self.name,
            toolchains: self.toolchains,
            mode: self.mode,
            cap_lints: CapLints::Warn,
            priority: self.priority,
            created_at: now,
            started_at: None,
            completed_at: None,
            platform_issue: self.platform_issue,
            status: Status::Queued,
            assigned_to: None,
            report_url: None,
            ignore_blacklist: false,
            requirement: None,
        }
    }

    /// The experiment that a request makes at `now`, with what belongs to
    /// it: no packages, no results, and a record of where to send notices
    /// where the request names such a place.
    pub open spec fn entry(self, now: Timestamp) -> ExperimentEntryView {
        ExperimentEntryView {
            experiment: self.experiment(now),
            crate_select: self.crate_select,
            metadata: match self.callback_url {
                Some(url) => Some(
                    ExperimentMetadataView {
                        callback_url: Some(url),
                        platform: Some(platform_tag(self.platform_issue)),
                        triggered_by: None,
                        created_at: now,
                    },
                ),
                None => None,
            },
            crates: Seq::empty(),
            results: Seq::empty(),
        }
    }
}

impl ExperimentEntryView {
    /// The experiment after an edit: each part that the edit gives replaces
    /// what was there; the place to send notices is recorded, in a new
    /// record where there was none.
    pub open spec fn edited(self, req: EditExperimentView) -> ExperimentEntryView {
        let e = self.experiment;
        let issue = match req.platform_issue {
            Some(i) => Some(i),
            None => e.platform_issue,
        };
        ExperimentEntryView {
            experiment: ExperimentView {
                name: match req.name {
                    Some(n) => n,
                    None => e.name,
                },
                mode: match req.mode {
                    Some(m) => m,
                    None => e.mode,
                },
                platform_issue: issue,
                priority: match req.priority {
                    Some(p) => p,
                    None => e.priority,
                },
                ..e
            },
            crate_select: match req.crate_select {
                Some(c) => c,
                None => self.crate_select,
            },
            metadata: match req.callback_url {
                Some(url) => Some(
                    match self.metadata {
                        Some(m) => ExperimentMetadataView { callback_url: Some(url), ..m },
                        None => ExperimentMetadataView {
                            callback_url: Some(url),
                            platform: Some(platform_tag(issue)),
                            triggered_by: None,
                            created_at: e.created_at,
                        },
                    },
                ),
                None => self.metadata,
            },
            ..self
        }
    }
}

impl DatabaseView {
    /// The experiments without what belongs to them, newest first.
    pub open spec fn all_experiments(self) -> Seq<ExperimentView> {
        Seq::new(self.experiments.len(), |i: int| self.experiments[i].experiment)
    }

    /// What `create` does to the store and gives back.
    pub open spec fn create_outcome(
        self,
        after: DatabaseView,
        r: Result<ExperimentView, Error>,
        req: CreateExperimentView,
        now: Timestamp,
    ) -> bool {
        if req.name.len() == 0 {
            r == Err::<ExperimentView, Error>(Error::BadRequest) && after == self
        } else if self.find(req.name) is Some {
            r == Err::<ExperimentView, Error>(Error::AlreadyExists) && after == self
        } else {
            &&& r == Ok::<ExperimentView, Error>(req.experiment(now))
            &&& after == DatabaseView {
                experiments: self.experiments.insert(
                    leading_newer(self.experiments, now),
                    req.entry(now),
                ),
                ..self
            }
        }
    }

    /// What `edit` does to the store and gives back.
    pub open spec fn edit_outcome(
        self,
        after: DatabaseView,
        r: Result<ExperimentView, Error>,
        name: Seq<char>,
        req: EditExperimentView,
    ) -> bool {
        match self.find(name) {
            None => r == Err::<ExperimentView, Error>(Error::NotFound) && after == self,
            Some(i) => {
                let entry = self.experiments[i];
                if entry.experiment.status != Status::Queued {
                    r == Err::<ExperimentView, Error>(Error::InvalidState) && after == self
                } else if req.name is Some && req.name.unwrap().len() == 0 {
                    r == Err::<ExperimentView, Error>(Error::BadRequest) && after == self
                } else if req.name is Some && req.name.unwrap() != name && self.find(
                    req.name.unwrap(),
                ) is Some {
                    r == Err::<ExperimentView, Error>(Error::AlreadyExists) && after == self
                } else {
                    &&& r == Ok::<ExperimentView, Error>(entry.edited(req).experiment)
                    &&& after == DatabaseView {
                        experiments: self.experiments.update(i, entry.edited(req)),
                        ..self
                    }
                }
            },
        }
    }

    /// What `delete` does to the store and gives back.
    pub open spec fn delete_outcome(
        self,
        after: DatabaseView,
        r: Result<(), Error>,
        name: Seq<char>,
    ) -> bool {
        match self.find(name) {
            None => r == Err::<(), Error>(Error::NotFound) && after == self,
            Some(i) => if self.experiments[i].experiment.status != Status::Queued {
                r == Err::<(), Error>(Error::InvalidState) && after == self
            } else {
                r == Ok::<(), Error>(()) && after == DatabaseView {
                    experiments: self.experiments.remove(i),
                    ..self
                }
            },
        }
    }

    /// What a step in the life of an experiment does to the store and
    /// gives back.
    pub open spec fn transition_outcome(
        self,
        after: DatabaseView,
        r: Result<(), Error>,
        name: Seq<char>,
        to: Status,
        now: Timestamp,
    ) -> bool {
        match self.find(name) {
            None => r == Err::<(), Error>(Error::NotFound) && after == self,
            Some(i) => {
                let e = self.experiments[i].experiment;
                if legal_transition(e.status, to) {
                    r == Ok::<(), Error>(()) && after == self.with_experiment(
                        i,
                        e.after_transition(to, now),
                    )
                } else {
                    r == Err::<(), Error>(Error::InvalidState) && after == self
                }
            },
        }
    }

    /// What setting or clearing the assignee of an experiment does to the
    /// store and gives back: it is done for a running experiment only.
    pub open spec fn assign_outcome(
        self,
        after: DatabaseView,
        r: Result<(), Error>,
        name: Seq<char>,
        assignee: Option<AssigneeView>,
    ) -> bool {
        match self.find(name) {
            None => r == Err::<(), Error>(Error::NotFound) && after == self,
            Some(i) => {
                let e = self.experiments[i].experiment;
                if e.status == Status::Running {
                    r == Ok::<(), Error>(()) && after == self.with_experiment(
                        i,
                        ExperimentView { assigned_to: assignee, ..e },
                    )
                } else {
                    r == Err::<(), Error>(Error::InvalidState) && after == self
                }
            },
        }
    }
}

/// A store stays in order when an experiment with a new name is put where
/// its time of creation belongs.
pub proof fn lemma_insert_keeps_wf(db: DatabaseView, p: int, entry: ExperimentEntryView)
    requires
        db.wf(),
        0 <= p <= db.experiments.len(),
        entry.wf(),
        db.find(entry.experiment.name) is None,
        forall|j: int|
            0 <= j < p ==> db.experiments[j].experiment.created_at.total_nanos()
                > entry.experiment.created_at.total_nanos(),
        p < db.experiments.len() ==> db.experiments[p].experiment.created_at.total_nanos()
            <= entry.experiment.created_at.total_nanos(),
    ensures
        (DatabaseView { experiments: db.experiments.insert(p, entry), ..db }).wf(),
{
    let after = DatabaseView { experiments: db.experiments.insert(p, entry), ..db };
    let name = entry.experiment.name;
    assert(after.names() =~= db.names().insert(p, name));
    crate::db::lemma_key_index(db.names(), name);
    assert forall|a: int, b: int|
        0 <= a < after.names().len() && 0 <= b < after.names().len() && a != b implies after.names()[a]
        != after.names()[b] by {
        let a0 = if a < p { a } else { a - 1 };
        let b0 = if b < p { b } else { b - 1 };
        if a != p && b != p {
            assert(after.names()[a] == db.names()[a0]);
            assert(after.names()[b] == db.names()[b0]);
        } else if a == p {
            assert(after.names()[b] == db.names()[b0]);
        } else {
            assert(after.names()[a] == db.names()[a0]);
        }
    }
    assert forall|k: int| 0 <= k < after.experiments.len() implies (#[trigger] after.experiments[k]).wf() by {
        if k < p {
            assert(after.experiments[k] == db.experiments[k]);
        } else if k > p {
            assert(after.experiments[k] == db.experiments[k - 1]);
        }
    }
    assert forall|a: int, b: int|
        0 <= a < b < after.experiments.len()
        implies after.experiments[a].experiment.created_at.total_nanos()
        >= after.experiments[b].experiment.created_at.total_nanos() by {
        if b < p {
        } else if a > p {
            assert(after.experiments[a] == db.experiments[a - 1]);
            assert(after.experiments[b] == db.experiments[b - 1]);
        } else if a == p {
            assert(after.experiments[b] == db.experiments[b - 1]);
        } else if b == p {
        } else {
            assert(after.experiments[b] == db.experiments[b - 1]);
        }
    }
}

/// A store stays in order when an experiment is replaced by one that is in
/// order, was created at the same time, and has a name that no other
/// experiment has.
pub proof fn lemma_update_keeps_wf(db: DatabaseView, i: int, entry: ExperimentEntryView)
    requires
        db.wf(),
        0 <= i < db.experiments.len(),
        entry.wf(),
        entry.experiment.created_at == db.experiments[i].experiment.created_at,
        forall|j: int|
            0 <= j < db.experiments.len() && j != i ==> db.experiments[j].experiment.name
                != entry.experiment.name,
    ensures
        (DatabaseView { experiments: db.experiments.update(i, entry), ..db }).wf(),
{
    let after = DatabaseView { experiments: db.experiments.update(i, entry), ..db };
    assert(after.names() =~= db.names().update(i, entry.experiment.name));
    assert forall|a: int, b: int|
        0 <= a < after.names().len() && 0 <= b < after.names().len() && a != b implies after.names()[a]
        != after.names()[b] by {
        if a != i && b != i {
            assert(after.names()[a] == db.names()[a]);
            assert(after.names()[b] == db.names()[b]);
        }
    }
    assert forall|k: int| 0 <= k < after.experiments.len() implies (#[trigger] after.experiments[k]).wf() by {
        if k != i {
            assert(after.experiments[k] == db.experiments[k]);
        }
    }
}

/// A store stays in order when an experiment leaves it.
pub proof fn lemma_remove_keeps_wf(db: DatabaseView, i: int)
    requires
        db.wf(),
        0 <= i < db.experiments.len(),
    ensures
        (DatabaseView { experiments: db.experiments.remove(i), ..db }).wf(),
{
    let after = DatabaseView { experiments: db.experiments.remove(i), ..db };
    assert(after.names() =~= db.names().remove(i));
    assert forall|a: int, b: int|
        0 <= a < after.names().len() && 0 <= b < after.names().len() && a != b implies after.names()[a]
        != after.names()[b] by {
        let a0 = if a < i { a } else { a + 1 };
        let b0 = if b < i { b } else { b + 1 };
        assert(after.names()[a] == db.names()[a0]);
        assert(after.names()[b] == db.names()[b0]);
    }
    assert forall|k: int| 0 <= k < after.experiments.len() implies (#[trigger] after.experiments[k]).wf() by {
        if k < i {
            assert(after.experiments[k] == db.experiments[k]);
        } else {
            assert(after.experiments[k] == db.experiments[k + 1]);
        }
    }
    assert forall|a: int, b: int|
        0 <= a < b < after.experiments.len()
        implies after.experiments[a].experiment.created_at.total_nanos()
        >= after.experiments[b].experiment.created_at.total_nanos() by {
        let a0 = if a < i { a } else { a + 1 };
        let b0 = if b < i { b } else { b + 1 };
        assert(after.experiments[a] == db.experiments[a0]);
        assert(after.experiments[b] == db.experiments[b0]);
    }
}

/// What is given where something is given, and what was there where not.
pub fn pick<T>(given: Option<T>, was: T) -> (r: T)
    ensures
        r == (match given {
            Some(x) => x,
            None => was,
        }),
{
    match given {
        Some(x) => x,
        None => was,
    }
}

/// The record kept beside an experiment, after an edit that may name a
/// place to send notices.
fn with_callback(
    metadata: Option<ExperimentMetadata>,
    url: Option<String>,
    issue: &Option<PlatformIssue>,
    created_at: Timestamp,
) -> (r: Option<ExperimentMetadata>)
    ensures
        opt_view(r) == (match opt_view(url) {
            Some(u) => Some(
                match opt_view(metadata) {
                    Some(m) => ExperimentMetadataView { callback_url: Some(u), ..m },
                    None => ExperimentMetadataView {
                        callback_url: Some(u),
                        platform: Some(platform_tag(opt_view(*issue))),
                        triggered_by: None,
                        created_at,
                    },
                },
            ),
            None => opt_view(metadata),
        }),
{
    proof {
        reveal_strlit("unknown");
    }
    match url {
        Some(u) => match metadata {
            Some(m) => Some(ExperimentMetadata { callback_url: Some(u), ..m }),
            None => {
                let platform = match issue {
                    Some(i) => i.platform.clone(),
                    None => "unknown".to_owned(),
                };
                Some(
                    ExperimentMetadata {
                        callback_url: Some(u),
                        platform: Some(platform),
                        triggered_by: None,
                        created_at,
                    },
                )
            },
        },
        None => metadata,
    }
}

/// The experiment after an edit, with what belongs to it.
fn apply_edit(entry: ExperimentEntry, req: EditExperiment) -> (r: ExperimentEntry)
    ensures
        r.model() == entry.model().edited(req@),
{
    let ExperimentEntry { experiment, crate_select, metadata, crates, results } = entry;
    let issue = match req.platform_issue {
        Some(i) => Some(i),
        None => experiment.platform_issue,
    };
    let metadata = with_callback(metadata, req.callback_url, &issue, experiment.created_at);
    let experiment = Experiment {
        name: pick(req.name, experiment.name),
        mode: pick(req.mode, experiment.mode),
        platform_issue: issue,
        priority: pick(req.priority, experiment.priority),
        ..experiment
    };
    ExperimentEntry {
        experiment,
        crate_select: pick(req.crate_select, crate_select),
        metadata,
        crates,
        results,
    }
}

/// The view of what an operation on experiments gives back.
pub open spec fn experiment_result_view(r: Result<Experiment, Error>) -> Result<
    ExperimentView,
    Error,
> {
    match r {
        Ok(e) => Ok(e@),
        Err(e) => Err(e),
    }
}

impl Database {
    /// The experiment called `name`, where there is one.
    pub fn get(&self, name: &str) -> (r: Fallible<Option<Experiment>>)
        requires
            self@.wf(),
        ensures
            r is Ok,
            opt_view(r.unwrap()) == self@.experiment(name@),
    {
        match self.position(name) {
            Some(i) => Ok(Some(self.entries[i].experiment.clone())),
            None => Ok(None),
        }
    }

    /// All experiments, newest first.
    pub fn list(&self) -> (r: Fallible<Vec<Experiment>>)
        requires
            self@.wf(),
        ensures
            r is Ok,
            views(r.unwrap()@) == self@.all_experiments(),
    {
        let mut out: Vec<Experiment> = Vec::new();
        let mut i: usize = 0;
        while i < self.entries.len()
            invariant
                0 <= i <= self.entries.len(),
                out@.len() == i,
                forall|j: int| 0 <= j < i ==> out@[j]@ == self.entries@[j].experiment@,
            decreases self.entries.len() - i,
        {
            out.push(self.entries[i].experiment.clone());
            i += 1;
        }
        assert(views(out@) =~= self@.all_experiments());
        Ok(out)
    }

    /// Creates an experiment at `now`. `BadRequest` where the name is empty;
    /// `AlreadyExists` where the name is taken; otherwise the experiment is
    /// stored, queued, and given back.
    pub fn create_at(&mut self, req: CreateExperiment, now: Timestamp) -> (r: Fallible<Experiment>)
        requires
            old(self)@.wf(),
        ensures
            final(self)@.wf(),
            old(self)@.create_outcome(final(self)@, experiment_result_view(r), req@, now),
    {
        proof {
            reveal_strlit("unknown");
        }
        if req.name.as_str().unicode_len() == 0 {
            return Err(Error::BadRequest);
        }
        if self.position(req.name.as_str()).is_some() {
            return Err(Error::AlreadyExists);
        }
        let ghost before = self@;
        let ghost rv = req@;
        let metadata = match &req.callback_url {
            Some(url) => {
                let platform = match &req.platform_issue {
                    Some(issue) => issue.platform.clone(),
                    None => "unknown".to_owned(),
                };
                Some(
                    ExperimentMetadata {
                        callback_url: Some(url.clone()),
                        platform: Some(platform),
                        triggered_by: None,
                        created_at: now,
                    },
                )
            },
            None => None,
        };
        let experiment = Experiment {
            name: req.name,
            toolchains: req.toolchains,
            mode: req.mode,
            cap_lints: CapLints::Warn,
            priority: req.priority,
            created_at: now,
            started_at: None,
            completed_at: None,
            platform_issue: req.platform_issue,
            status: Status::Queued,
            assigned_to: None,
            report_url: None,
            ignore_blacklist: false,
            requirement: None,
        };
        let copy = experiment.clone();
        let entry = ExperimentEntry {
            experiment,
            crate_select: req.crate_select,
            metadata,
            crates: Vec::new(),
            results: Vec::new(),
        };
        assert(entry.model().crates =~= Seq::empty());
        assert(entry.model().results =~= Seq::empty());
        assert(entry.model() == rv.entry(now));
        proof {
            assert(rv.entry(now).crate_ids() =~= Seq::empty());
            assert(rv.entry(now).result_keys() =~= Seq::empty());
            assert(rv.toolchains.len() == 2);
        }
        self.insert_entry(entry);
        Ok(copy)
    }

    /// Deletes the experiment called `name` with everything that belongs to
    /// it. `NotFound` where there is none; `InvalidState` unless it is
    /// queued.
    pub fn delete(&mut self, name: &str) -> (r: Fallible<()>)
        requires
            old(self)@.wf(),
        ensures
            final(self)@.wf(),
            old(self)@.delete_outcome(final(self)@, r, name@),
    {
        let i = match self.position(name) {
            Some(i) => i,
            None => {
                return Err(Error::NotFound);
            },
        };
        if self.entries[i].experiment.status != Status::Queued {
            return Err(Error::InvalidState);
        }
        let ghost before = self@;
        self.entries.remove(i);
        proof {
            let after = DatabaseView { experiments: before.experiments.remove(i as int), ..before };
            assert(self@.experiments =~= after.experiments);
            assert(self@ == after);
            lemma_remove_keeps_wf(before, i as int);
        }
        Ok(())
    }

    /// Sets the worker that runs the experiment called `name`. `NotFound`
    /// where there is no such experiment; `InvalidState` unless it is
    /// running.
    pub fn assign(&mut self, name: &str, worker_id: &str) -> (r: Fallible<()>)
        requires
            old(self)@.wf(),
        ensures
            final(self)@.wf(),
            old(self)@.assign_outcome(
                final(self)@,
                r,
                name@,
                Some(AssigneeView::Agent(worker_id@)),
            ),
    {
        self.set_assignee(name, Some(Assignee::Agent(worker_id.to_owned())))
    }

    /// Clears the worker that runs the experiment called `name`.
    /// `NotFound` where there is no such experiment; `InvalidState` unless
    /// it is running.
    pub fn clear_assignee(&mut self, name: &str) -> (r: Fallible<()>)
        requires
            old(self)@.wf(),
        ensures
            final(self)@.wf(),
            old(self)@.assign_outcome(final(self)@, r, name@, None),
    {
        self.set_assignee(name, None)
    }

    fn set_assignee(&mut self, name: &str, assignee: Option<Assignee>) -> (r: Fallible<()>)
        requires
            old(self)@.wf(),
        ensures
            final(self)@.wf(),
            old(self)@.assign_outcome(final(self)@, r, name@, opt_view(assignee)),
    {
        let i = match self.position(name) {
            Some(i) => i,
            None => {
                return Err(Error::NotFound);
            },
        };
        if self.entries[i].experiment.status != Status::Running {
            return Err(Error::InvalidState);
        }
        let ghost before = self@;
        let ghost e = before.experiments[i as int].experiment;
        assert(before.experiments[i as int].wf());
        self.entries[i].experiment.assigned_to = assignee;
        proof {
            let after = before.with_experiment(
                i as int,
                ExperimentView { assigned_to: opt_view(assignee), ..e },
            );
            assert(self@.experiments =~= after.experiments);
            assert(self@ == after);
            assert(after.names() =~= before.names());
            assert(after.experiments[i as int].wf());
        }
        Ok(())
    }
}

impl Database {
    /// Edits the experiment called `name`. `NotFound` where there is none;
    /// `InvalidState` unless it is queued; `BadRequest` where the new name
    /// is empty; `AlreadyExists` where the new name is that of another
    /// experiment. Otherwise each part that the edit gives replaces what was
    /// there, and the experiment is given back as it then stands. What
    /// belongs to the experiment follows it to its new name.
    pub fn edit(&mut self, name: &str, req: EditExperiment) -> (r: Fallible<Experiment>)
        requires
            old(self)@.wf(),
        ensures
            final(self)@.wf(),
            old(self)@.edit_outcome(final(self)@, experiment_result_view(r), name@, req@),
    {
        proof {
            reveal_strlit("unknown");
        }
        let i = match self.position(name) {
            Some(i) => i,
            None => {
                return Err(Error::NotFound);
            },
        };
        if self.entries[i].experiment.status != Status::Queued {
            return Err(Error::InvalidState);
        }
        match &req.name {
            Some(n) => {
                if n.as_str().unicode_len() == 0 {
                    return Err(Error::BadRequest);
                }
                if !str_eq(n.as_str(), name) && self.position(n.as_str()).is_some() {
                    return Err(Error::AlreadyExists);
                }
            },
            None => {},
        }
        let ghost before = self@;
        let ghost rv = req@;
        let ghost old_entry = before.experiments[i as int];
        let ghost target = old_entry.edited(rv);
        proof {
            assert(old_entry.wf());
            crate::db::lemma_key_index(before.names(), name@);
            assert(before.names()[i as int] == name@);
            if rv.name is Some {
                crate::db::lemma_key_index(before.names(), rv.name.unwrap());
            }
            assert forall|j: int|
                0 <= j < before.experiments.len() && j != i implies before.experiments[j].experiment.name
                != target.experiment.name by {
                assert(before.names()[j] == before.experiments[j].experiment.name);
            }
        }
        let entry = self.entries.remove(i);
        let edited = apply_edit(entry, req);
        let copy = edited.experiment.clone();
        self.entries.insert(i, edited);
        proof {
            let after = DatabaseView {
                experiments: before.experiments.update(i as int, target),
                ..before
            };
            assert(self@.experiments =~= after.experiments);
            assert(self@ == after);
            assert(target.crate_ids() =~= old_entry.crate_ids());
            assert(target.result_keys() =~= old_entry.result_keys());
            lemma_update_keeps_wf(before, i as int, target);
        }
        Ok(copy)
    }

    /// Starts the experiment called `name` at `now`: the step from queued
    /// to running.
    pub fn run_at(&mut self, name: &str, now: Timestamp) -> (r: Fallible<()>)
        requires
            old(self)@.wf(),
        ensures
            final(self)@.wf(),
            old(self)@.transition_outcome(final(self)@, r, name@, Status::Running, now),
    {
        self.transition_at(name, Status::Running, now)
    }

    /// Ends the experiment called `name` at `now`: the step to completed,
    /// from running or from the writing of its report.
    pub fn complete_at(&mut self, name: &str, now: Timestamp) -> (r: Fallible<()>)
        requires
            old(self)@.wf(),
        ensures
            final(self)@.wf(),
            old(self)@.transition_outcome(final(self)@, r, name@, Status::Completed, now),
    {
        self.transition_at(name, Status::Completed, now)
    }

    /// Gives up the experiment called `name` at `now`: the step to
    /// report-failed, from running or from the writing of its report. The
    /// reason is not kept.
    pub fn abort_at(&mut self, name: &str, reason: &str, now: Timestamp) -> (r: Fallible<()>)
        requires
            old(self)@.wf(),
        ensures
            final(self)@.wf(),
            old(self)@.transition_outcome(final(self)@, r, name@, Status::ReportFailed, now),
    {
        self.transition_at(name, Status::ReportFailed, now)
    }

    /// Takes the experiment called `name` one step along its life, at the
    /// time the clock shows. `Internal`, and nothing done, where the clock
    /// shows no instant.
    pub fn transition(&mut self, name: &str, to: Status) -> (r: Fallible<()>)
        requires
            old(self)@.wf(),
        ensures
            final(self)@.wf(),
            (r == Err::<(), Error>(Error::Internal) && final(self)@ == old(self)@) || exists|
                now: Timestamp,
            | #[trigger]
                old(self)@.transition_outcome(final(self)@, r, name@, to, now),
    {
        match Timestamp::now() {
            Some(now) => {
                let r = self.transition_at(name, to, now);
                assert(old(self)@.transition_outcome(self@, r, name@, to, now));
                r
            },
            None => Err(Error::Internal),
        }
    }

    /// Starts the experiment called `name` at the time the clock shows.
    pub fn run(&mut self, name: &str) -> (r: Fallible<()>)
        requires
            old(self)@.wf(),
        ensures
            final(self)@.wf(),
            (r == Err::<(), Error>(Error::Internal) && final(self)@ == old(self)@) || exists|
                now: Timestamp,
            | #[trigger]
                old(self)@.transition_outcome(final(self)@, r, name@, Status::Running, now),
    {
        self.transition(name, Status::Running)
    }

    /// Ends the experiment called `name` at the time the clock shows.
    pub fn complete(&mut self, name: &str) -> (r: Fallible<()>)
        requires
            old(self)@.wf(),
        ensures
            final(self)@.wf(),
            (r == Err::<(), Error>(Error::Internal) && final(self)@ == old(self)@) || exists|
                now: Timestamp,
            | #[trigger]
                old(self)@.transition_outcome(final(self)@, r, name@, Status::Completed, now),
    {
        self.transition(name, Status::Completed)
    }

    /// Gives up the experiment called `name` at the time the clock shows.
    pub fn abort(&mut self, name: &str, reason: &str) -> (r: Fallible<()>)
        requires
            old(self)@.wf(),
        ensures
            final(self)@.wf(),
            (r == Err::<(), Error>(Error::Internal) && final(self)@ == old(self)@) || exists|
                now: Timestamp,
            | #[trigger]
                old(self)@.transition_outcome(final(self)@, r, name@, Status::ReportFailed, now),
    {
        self.transition(name, Status::ReportFailed)
    }

    /// Creates an experiment at the time the clock shows. `Internal`, and
    /// nothing done, where the clock shows no instant.
    pub fn create(&mut self, req: CreateExperiment) -> (r: Fallible<Experiment>)
        requires
            old(self)@.wf(),
        ensures
            final(self)@.wf(),
            (r == Err::<Experiment, Error>(Error::Internal) && final(self)@ == old(self)@)
                || exists|now: Timestamp| #[trigger]
                old(self)@.create_outcome(final(self)@, experiment_result_view(r), req@, now),
    {
        match Timestamp::now() {
            Some(now) => {
                let ghost rv = req@;
                let r = self.create_at(req, now);
                assert(old(self)@.create_outcome(self@, experiment_result_view(r), rv, now));
                r
            },
            None => Err(Error::Internal),
        }
    }
}

impl DatabaseView {
    /// The store with `entry` put where its time of creation belongs:
    /// behind the experiments that were created after it.
    pub open spec fn with_new_entry(self, entry: ExperimentEntryView) -> DatabaseView {
        DatabaseView {
            experiments: self.experiments.insert(
                leading_newer(self.experiments, entry.experiment.created_at),
                entry,
            ),
            ..self
        }
    }

    /// What taking in an experiment that was made elsewhere does to the
    /// store and gives back: it is taken in where it is in order and its
    /// name is free.
    pub open spec fn restore_outcome(
        self,
        after: DatabaseView,
        r: Result<(), Error>,
        entry: ExperimentEntryView,
    ) -> bool {
        if !entry.wf() {
            r == Err::<(), Error>(Error::BadRequest) && after == self
        } else if self.find(entry.experiment.name) is Some {
            r == Err::<(), Error>(Error::AlreadyExists) && after == self
        } else {
            r == Ok::<(), Error>(()) && after == self.with_new_entry(entry)
        }
    }
}

impl Database {
    /// Puts `entry` where its time of creation belongs.
    pub(crate) fn insert_entry(&mut self, entry: ExperimentEntry)
        requires
            old(self)@.wf(),
            entry.model().wf(),
            old(self)@.find(entry.model().experiment.name) is None,
        ensures
            final(self)@.wf(),
            final(self)@ == old(self)@.with_new_entry(entry.model()),
    {
        let ghost before = self@;
        let ghost ev = entry.model();
        let now = entry.experiment.created_at;
        let mut p: usize = 0;
        assert(before.experiments.skip(0) =~= before.experiments);
        while p < self.entries.len() && self.entries[p].experiment.created_at.is_after(&now)
            invariant
                0 <= p <= self.entries.len(),
                self@ == before,
                leading_newer(before.experiments, now) == p + leading_newer(
                    before.experiments.skip(p as int),
                    now,
                ),
                forall|j: int|
                    0 <= j < p ==> before.experiments[j].experiment.created_at.total_nanos()
                        > now.total_nanos(),
            decreases self.entries.len() - p,
        {
            proof {
                let rest = before.experiments.skip(p as int);
                assert(rest[0] == before.experiments[p as int]);
                assert(rest.skip(1) =~= before.experiments.skip(p + 1));
            }
            p += 1;
        }
        proof {
            let rest = before.experiments.skip(p as int);
            if p < self.entries.len() {
                assert(rest[0] == before.experiments[p as int]);
            }
            assert(leading_newer(before.experiments, now) == p);
        }
        self.entries.insert(p, entry);
        proof {
            let after = before.with_new_entry(ev);
            assert(self@.experiments =~= after.experiments);
            assert(self@ == after);
            if p < before.experiments.len() {
                assert(before.experiments[p as int].experiment.created_at.total_nanos()
                    <= now.total_nanos());
            }
            lemma_insert_keeps_wf(before, p as int, ev);
        }
    }

    /// Takes in an experiment that was made elsewhere, with its selection
    /// of packages and the record kept beside it, and no packages or
    /// results yet. `BadRequest` where the experiment is not in order;
    /// `AlreadyExists` where its name is taken.
    pub fn restore_experiment(
        &mut self,
        experiment: Experiment,
        crate_select: CrateSelect,
        metadata: Option<ExperimentMetadata>,
    ) -> (r: Fallible<()>)
        requires
            old(self)@.wf(),
        ensures
            final(self)@.wf(),
            old(self)@.restore_outcome(
                final(self)@,
                r,
                ExperimentEntryView {
                    experiment: experiment@,
                    crate_select: crate_select@,
                    metadata: opt_view(metadata),
                    crates: Seq::empty(),
                    results: Seq::empty(),
                },
            ),
    {
        let entry = ExperimentEntry {
            experiment,
            crate_select,
            metadata,
            crates: Vec::new(),
            results: Vec::new(),
        };
        proof {
            assert(entry.model().crates =~= Seq::empty());
            assert(entry.model().results =~= Seq::empty());
            assert(entry.model().crate_ids() =~= Seq::empty());
            assert(entry.model().result_keys() =~= Seq::empty());
        }
        if !entry.experiment.is_consistent() {
            return Err(Error::BadRequest);
        }
        if self.position(entry.experiment.name.as_str()).is_some() {
            return Err(Error::AlreadyExists);
        }
        self.insert_entry(entry);
        Ok(())
    }

    /// The selection of packages of the experiment called `name`.
    pub fn get_crate_select(&self, name: &str) -> (r: Fallible<Option<CrateSelect>>)
        requires
            self@.wf(),
        ensures
            r is Ok,
            opt_view(r.unwrap()) == (match self@.entry(name@) {
                Some(entry) => Some(entry.crate_select),
                None => None,
            }),
    {
        match self.position(name) {
            Some(i) => Ok(Some(self.entries[i].crate_select.clone())),
            None => Ok(None),
        }
    }

    /// The record kept beside the experiment called `name`.
    pub fn get_metadata(&self, name: &str) -> (r: Fallible<Option<ExperimentMetadata>>)
        requires
            self@.wf(),
        ensures
            r is Ok,
            opt_view(r.unwrap()) == (match self@.entry(name@) {
                Some(entry) => entry.metadata,
                None => None,
            }),
    {
        match self.position(name) {
            Some(i) => match &self.entries[i].metadata {
                Some(m) => Ok(Some(m.clone())),
                None => Ok(None),
            },
            None => Ok(None),
        }
    }
}

impl ExperimentView {
    /// Whether this experiment is taken up before `other`: the more urgent
    /// one first, of two equally urgent ones the older one, of two equally
    /// old ones the one whose name stands first.
    pub open spec fn schedules_before(self, other: ExperimentView) -> bool {
        if self.priority != other.priority {
            self.priority > other.priority
        } else if self.created_at.total_nanos() != other.created_at.total_nanos() {
            self.created_at.total_nanos() < other.created_at.total_nanos()
        } else {
            crate::text::lex_less(self.name, other.name)
        }
    }
}

/// Of two experiments with different names, one is taken up before the
/// other.
pub proof fn lemma_schedule_total(a: ExperimentView, b: ExperimentView)
    requires
        a.name != b.name,
    ensures
        a.schedules_before(b) || b.schedules_before(a),
{
    crate::text::lemma_lex_total(a.name, b.name);
}

/// What is taken up before an experiment is taken up before what that
/// experiment is taken up before.
pub proof fn lemma_schedule_transitive(a: ExperimentView, b: ExperimentView, c: ExperimentView)
    requires
        a.schedules_before(b),
        b.schedules_before(c),
    ensures
        a.schedules_before(c),
{
    if a.priority == b.priority && b.priority == c.priority && a.created_at.total_nanos()
        == b.created_at.total_nanos() && b.created_at.total_nanos() == c.created_at.total_nanos() {
        crate::text::lemma_lex_transitive(a.name, b.name, c.name);
    }
}

impl DatabaseView {
    /// Whether the experiment at `i` is the one to take up next: it is
    /// queued, and taken up before every other queued experiment.
    pub open spec fn is_next(self, i: int) -> bool {
        &&& 0 <= i < self.experiments.len()
        &&& self.experiments[i].experiment.status == Status::Queued
        &&& forall|j: int|
            0 <= j < self.experiments.len() && j != i && self.experiments[j].experiment.status
                == Status::Queued ==> self.experiments[i].experiment.schedules_before(
                #[trigger] self.experiments[j].experiment,
            )
    }

    /// Whether no experiment is queued.
    pub open spec fn nothing_queued(self) -> bool {
        forall|j: int|
            0 <= j < self.experiments.len() ==> (#[trigger] self.experiments[j]).experiment.status
                != Status::Queued
    }
}

impl Experiment {
    /// Whether this experiment is taken up before `other`.
    pub fn schedules_before(&self, other: &Experiment) -> (r: bool)
        ensures
            r == self@.schedules_before(other@),
    {
        if self.priority != other.priority {
            self.priority > other.priority
        } else if self.created_at.is_before(&other.created_at) {
            true
        } else if other.created_at.is_before(&self.created_at) {
            false
        } else {
            crate::text::str_less(self.name.as_str(), other.name.as_str())
        }
    }
}

impl Database {
    /// The queued experiment to take up next, where one is queued.
    pub fn next_queued(&self) -> (r: Fallible<Option<Experiment>>)
        requires
            self@.wf(),
        ensures
            r is Ok,
            match r.unwrap() {
                Some(e) => exists|i: int|
                    #[trigger] self@.is_next(i) && self@.experiments[i].experiment == e@,
                None => self@.nothing_queued(),
            },
    {
        let mut best: Option<usize> = None;
        let mut i: usize = 0;
        while i < self.entries.len()
            invariant
                self@.wf(),
                0 <= i <= self.entries.len(),
                self.entries@.len() == self@.experiments.len(),
                match best {
                    Some(b) => {
                        &&& b < i
                        &&& self@.experiments[b as int].experiment.status == Status::Queued
                        &&& forall|j: int|
                            0 <= j < i && j != b && self@.experiments[j].experiment.status
                                == Status::Queued
                                ==> self@.experiments[b as int].experiment.schedules_before(
                                #[trigger] self@.experiments[j].experiment,
                            )
                    },
                    None => forall|j: int|
                        0 <= j < i ==> (#[trigger] self@.experiments[j]).experiment.status
                            != Status::Queued,
                },
            decreases self.entries.len() - i,
        {
            let candidate = &self.entries[i].experiment;
            let ghost cv = self@.experiments[i as int].experiment;
            assert(candidate@ == cv);
            if candidate.status == Status::Queued {
                match best {
                    None => {
                        best = Some(i);
                    },
                    Some(b) => {
                        let ghost bv = self@.experiments[b as int].experiment;
                        proof {
                            assert(self@.names()[b as int] == bv.name);
                            assert(self@.names()[i as int] == cv.name);
                            lemma_schedule_total(cv, bv);
                        }
                        if candidate.schedules_before(&self.entries[b].experiment) {
                            proof {
                                assert forall|j: int|
                                    0 <= j < i + 1 && j != i
                                        && self@.experiments[j].experiment.status
                                        == Status::Queued implies cv.schedules_before(
                                    #[trigger] self@.experiments[j].experiment,
                                ) by {
                                    if j != b {
                                        lemma_schedule_transitive(
                                            cv,
                                            bv,
                                            self@.experiments[j].experiment,
                                        );
                                    }
                                }
                            }
                            best = Some(i);
                        }
                    },
                }
            }
            i += 1;
        }
        match best {
            Some(b) => {
                let e = self.entries[b].experiment.clone();
                assert(self@.is_next(b as int));
                Ok(Some(e))
            },
            None => Ok(None),
        }
    }
}

/// In a store, an experiment that is queued has neither started nor
/// ended, and an experiment that is completed has both.
pub proof fn lemma_stored_times(db: DatabaseView, i: int)
    requires
        db.wf(),
        0 <= i < db.experiments.len(),
    ensures
        db.experiments[i].experiment.status == Status::Queued
            ==> db.experiments[i].experiment.started_at is None
            && db.experiments[i].experiment.completed_at is None,
        db.experiments[i].experiment.status == Status::Completed
            ==> db.experiments[i].experiment.started_at is Some
            && db.experiments[i].experiment.completed_at is Some,
{
    assert(db.experiments[i].wf());
}

/// An experiment can be deleted exactly when it is queued, and edited only
/// when it is queued; an edit that changes nothing is done exactly when it
/// is queued.
pub proof fn lemma_edit_delete_need_queued(
    db: DatabaseView,
    name: Seq<char>,
    req: EditExperimentView,
    after_edit: DatabaseView,
    edited: Result<ExperimentView, Error>,
    after_delete: DatabaseView,
    deleted: Result<(), Error>,
)
    requires
        db.wf(),
        db.find(name) is Some,
        db.edit_outcome(after_edit, edited, name, req),
        db.delete_outcome(after_delete, deleted, name),
    ensures
        deleted is Ok <==> db.experiment(name).unwrap().status == Status::Queued,
        edited is Ok ==> db.experiment(name).unwrap().status == Status::Queued,
        req == EditExperimentView::nothing() ==> (edited is Ok <==> db.experiment(
            name,
        ).unwrap().status == Status::Queued),
        db.experiment(name).unwrap().status != Status::Queued ==> edited == Err::<
            ExperimentView,
            Error,
        >(Error::InvalidState) && deleted == Err::<(), Error>(Error::InvalidState),
{
}

/// Creating an experiment under a name that is taken fails with
/// `AlreadyExists` and changes nothing.
pub proof fn lemma_create_taken_name(
    db: DatabaseView,
    after: DatabaseView,
    r: Result<ExperimentView, Error>,
    req: CreateExperimentView,
    now: Timestamp,
)
    requires
        db.wf(),
        db.find(req.name) is Some,
        db.create_outcome(after, r, req, now),
    ensures
        r == Err::<ExperimentView, Error>(Error::AlreadyExists),
        after == db,
{
    crate::db::lemma_key_index(db.names(), req.name);
    let i = db.find(req.name).unwrap();
    assert(db.experiments[i].wf());
    assert(db.names()[i] == db.experiments[i].experiment.name);
}

/// Once an experiment has been started, editing it fails with
/// `InvalidState` and changes nothing.
pub proof fn lemma_edit_after_run(
    db: DatabaseView,
    started: DatabaseView,
    after: DatabaseView,
    name: Seq<char>,
    now: Timestamp,
    req: EditExperimentView,
    r: Result<ExperimentView, Error>,
)
    requires
        db.wf(),
        db.transition_outcome(started, Ok(()), name, Status::Running, now),
        started.edit_outcome(after, r, name, req),
    ensures
        r == Err::<ExperimentView, Error>(Error::InvalidState),
        after == started,
{
    crate::db::lemma_key_index(db.names(), name);
    let i = db.find(name).unwrap();
    assert(started.names() =~= db.names());
    assert(started.experiments[i].experiment.status == Status::Running);
}

/// Starting a queued experiment succeeds. The experiment is then
/// running, with a start no earlier than its creation and no end, and
/// nothing else of it changes. Every other experiment is as it was.
pub proof fn lemma_run_queued(
    db: DatabaseView,
    after: DatabaseView,
    r: Result<(), Error>,
    name: Seq<char>,
    now: Timestamp,
)
    requires
        db.wf(),
        db.find(name) is Some,
        db.experiment(name).unwrap().status == Status::Queued,
        db.transition_outcome(after, r, name, Status::Running, now),
    ensures
        r == Ok::<(), Error>(()),
        after.experiment(name) is Some,
        after.experiment(name).unwrap() == (ExperimentView {
            status: Status::Running,
            started_at: Some(later(now, db.experiment(name).unwrap().created_at)),
            ..db.experiment(name).unwrap()
        }),
        after.experiment(name).unwrap().started_at.unwrap().total_nanos() >= db.experiment(
            name,
        ).unwrap().created_at.total_nanos(),
        after.experiment(name).unwrap().completed_at is None,
        forall|other: Seq<char>| other != name ==> #[trigger] after.entry(other) == db.entry(other),
{
    crate::db::lemma_key_index(db.names(), name);
    let i = db.find(name).unwrap();
    assert(db.experiments[i].wf());
    assert(after.names() =~= db.names());
    assert forall|other: Seq<char>| other != name implies #[trigger] after.entry(other) == db.entry(
        other,
    ) by {
        crate::db::lemma_key_index(db.names(), other);
    }
}

/// Giving up a running experiment succeeds. The experiment has then
/// failed; it keeps its start, its end is no earlier than its start, and
/// nothing else of it changes. Every other experiment is as it was.
pub proof fn lemma_abort_running(
    db: DatabaseView,
    after: DatabaseView,
    r: Result<(), Error>,
    name: Seq<char>,
    now: Timestamp,
)
    requires
        db.wf(),
        db.find(name) is Some,
        db.experiment(name).unwrap().status == Status::Running,
        db.transition_outcome(after, r, name, Status::ReportFailed, now),
    ensures
        r == Ok::<(), Error>(()),
        after.experiment(name) is Some,
        db.experiment(name).unwrap().started_at is Some,
        after.experiment(name).unwrap() == (ExperimentView {
            status: Status::ReportFailed,
            completed_at: Some(later(now, db.experiment(name).unwrap().started_at.unwrap())),
            ..db.experiment(name).unwrap()
        }),
        after.experiment(name).unwrap().completed_at.unwrap().total_nanos() >= db.experiment(
            name,
        ).unwrap().started_at.unwrap().total_nanos(),
        forall|other: Seq<char>| other != name ==> #[trigger] after.entry(other) == db.entry(other),
{
    crate::db::lemma_key_index(db.names(), name);
    let i = db.find(name).unwrap();
    assert(db.experiments[i].wf());
    assert(after.names() =~= db.names());
    assert forall|other: Seq<char>| other != name implies #[trigger] after.entry(other) == db.entry(
        other,
    ) by {
        crate::db::lemma_key_index(db.names(), other);
    }
}

/// Ending a running experiment succeeds. The experiment is then
/// completed; it keeps its start, its end is no earlier than its start,
/// and nothing else of it changes. Every other experiment is as it was.
pub proof fn lemma_complete_running(
    db: DatabaseView,
    after: DatabaseView,
    r: Result<(), Error>,
    name: Seq<char>,
    now: Timestamp,
)
    requires
        db.wf(),
        db.find(name) is Some,
        db.experiment(name).unwrap().status == Status::Running,
        db.transition_outcome(after, r, name, Status::Completed, now),
    ensures
        r == Ok::<(), Error>(()),
        after.experiment(name) is Some,
        db.experiment(name).unwrap().started_at is Some,
        after.experiment(name).unwrap() == (ExperimentView {
            status: Status::Completed,
            completed_at: Some(later(now, db.experiment(name).unwrap().started_at.unwrap())),
            ..db.experiment(name).unwrap()
        }),
        after.experiment(name).unwrap().completed_at.unwrap().total_nanos() >= db.experiment(
            name,
        ).unwrap().started_at.unwrap().total_nanos(),
        db.experiment(name).unwrap().started_at.unwrap().total_nanos() >= db.experiment(
            name,
        ).unwrap().created_at.total_nanos(),
        forall|other: Seq<char>| other != name ==> #[trigger] after.entry(other) == db.entry(other),
{
    crate::db::lemma_key_index(db.names(), name);
    let i = db.find(name).unwrap();
    assert(db.experiments[i].wf());
    assert(after.names() =~= db.names());
    assert forall|other: Seq<char>| other != name implies #[trigger] after.entry(other) == db.entry(
        other,
    ) by {
        crate::db::lemma_key_index(db.names(), other);
    }
}

/// Ending an experiment that has not started fails and changes nothing:
/// `InvalidState` for one that is queued, `NotFound` where there is none
/// of that name. So no experiment comes to be completed without a start.
pub proof fn lemma_complete_needs_start(
    db: DatabaseView,
    after: DatabaseView,
    r: Result<(), Error>,
    name: Seq<char>,
    now: Timestamp,
)
    requires
        db.wf(),
        db.transition_outcome(after, r, name, Status::Completed, now),
    ensures
        db.find(name) is None ==> r == Err::<(), Error>(Error::NotFound) && after == db,
        db.find(name) is Some && db.experiment(name).unwrap().status == Status::Queued ==> r
            == Err::<(), Error>(Error::InvalidState) && after == db,
        r is Ok ==> db.experiment(name).unwrap().started_at is Some && after.experiment(
            name,
        ).unwrap().started_at == db.experiment(name).unwrap().started_at,
        r is Err ==> after == db,
{
    crate::db::lemma_key_index(db.names(), name);
    if db.find(name) is Some {
        let i = db.find(name).unwrap();
        assert(db.experiments[i].wf());
        assert(after.names() =~= db.names());
    }
}

/// What a registry of experiments offers. The store of this crate is
/// one.
pub trait ExperimentActions: View<V = DatabaseView> + Sized {
    /// Creates an experiment at the time the clock shows.
    fn create(&mut self, req: CreateExperiment) -> (r: Fallible<Experiment>)
        requires
            old(self)@.wf(),
        ensures
            final(self)@.wf(),
            (r == Err::<Experiment, Error>(Error::Internal) && final(self)@ == old(self)@)
                || exists|now: Timestamp| #[trigger]
                old(self)@.create_outcome(final(self)@, experiment_result_view(r), req@, now),
    ;

    /// Edits an experiment that is queued.
    fn edit(&mut self, name: &str, req: EditExperiment) -> (r: Fallible<Experiment>)
        requires
            old(self)@.wf(),
        ensures
            final(self)@.wf(),
            old(self)@.edit_outcome(final(self)@, experiment_result_view(r), name@, req@),
    ;

    /// Deletes an experiment that is queued.
    fn delete(&mut self, name: &str) -> (r: Fallible<()>)
        requires
            old(self)@.wf(),
        ensures
            final(self)@.wf(),
            old(self)@.delete_outcome(final(self)@, r, name@),
    ;

    /// The experiment called `name`, where there is one.
    fn get(&self, name: &str) -> (r: Fallible<Option<Experiment>>)
        requires
            self@.wf(),
        ensures
            r is Ok,
            opt_view(r.unwrap()) == self@.experiment(name@),
    ;

    /// All experiments, newest first.
    fn list(&self) -> (r: Fallible<Vec<Experiment>>)
        requires
            self@.wf(),
        ensures
            r is Ok,
            views(r.unwrap()@) == self@.all_experiments(),
    ;

    /// Starts an experiment at the time the clock shows.
    fn run(&mut self, name: &str) -> (r: Fallible<()>)
        requires
            old(self)@.wf(),
        ensures
            final(self)@.wf(),
            (r == Err::<(), Error>(Error::Internal) && final(self)@ == old(self)@) || exists|
                now: Timestamp,
            | #[trigger]
                old(self)@.transition_outcome(final(self)@, r, name@, Status::Running, now),
    ;

    /// Ends an experiment at the time the clock shows.
    fn complete(&mut self, name: &str) -> (r: Fallible<()>)
        requires
            old(self)@.wf(),
        ensures
            final(self)@.wf(),
            (r == Err::<(), Error>(Error::Internal) && final(self)@ == old(self)@) || exists|
                now: Timestamp,
            | #[trigger]
                old(self)@.transition_outcome(final(self)@, r, name@, Status::Completed, now),
    ;

    /// Gives up an experiment at the time the clock shows.
    fn abort(&mut self, name: &str, reason: &str) -> (r: Fallible<()>)
        requires
            old(self)@.wf(),
        ensures
            final(self)@.wf(),
            (r == Err::<(), Error>(Error::Internal) && final(self)@ == old(self)@) || exists|
                now: Timestamp,
            | #[trigger]
                old(self)@.transition_outcome(final(self)@, r, name@, Status::ReportFailed, now),
    ;
}

impl ExperimentActions for Database {
    fn create(&mut self, req: CreateExperiment) -> (r: Fallible<Experiment>) {
        Database::create(self, req)
    }

    fn edit(&mut self, name: &str, req: EditExperiment) -> (r: Fallible<Experiment>) {
        Database::edit(self, name, req)
    }

    fn delete(&mut self, name: &str) -> (r: Fallible<()>) {
        Database::delete(self, name)
    }

    fn get(&self, name: &str) -> (r: Fallible<Option<Experiment>>) {
        Database::get(self, name)
    }

    fn list(&self) -> (r: Fallible<Vec<Experiment>>) {
        Database::list(self)
    }

    fn run(&mut self, name: &str) -> (r: Fallible<()>) {
        Database::run(self, name)
    }

    fn complete(&mut self, name: &str) -> (r: Fallible<()>) {
        Database::complete(self, name)
    }

    fn abort(&mut self, name: &str, reason: &str) -> (r: Fallible<()>) {
        Database::abort(self, name, reason)
    }
}

} // verus!
