//! What the pages ask for: the experiments with their progress.

use crate::api::error::{ApiError, ApiErrorView};
use crate::api::routes::experiments::experiment_not_found;
use crate::db::experiments::{Database, DatabaseView, ExperimentEntryView};
use crate::experiments::{clone_opt_assignee, Experiment, ExperimentView};
use crate::model::{clone_opt_string, opt_view, views};
use crate::text::concat3;
use crate::time::Timestamp;
use crate::ui::routes::{
    estimate, spec_average, spec_percentage, spec_remaining, Estimate,
};
use crate::Error;
use vstd::prelude::*;

verus! {

/// One line of the list of experiments.
#[derive(Debug, PartialEq, Eq)]
pub struct ExperimentListItem {
    pub name: String,
    pub assigned_to: Option<String>,
    pub requirement: Option<String>,
    pub mode: String,
    pub priority: i32,
    pub status: String,
    /// The part of the runs that is done, in whole percent.
    pub progress_percentage: u64,
}

pub struct ExperimentListItemView {
    pub name: Seq<char>,
    pub assigned_to: Option<Seq<char>>,
    pub requirement: Option<Seq<char>>,
    pub mode: Seq<char>,
    pub priority: i32,
    pub status: Seq<char>,
    pub progress_percentage: u64,
}

impl View for ExperimentListItem {
    type V = ExperimentListItemView;

    open spec fn view(&self) -> ExperimentListItemView {
        ExperimentListItemView {
            name: self.name@,
            assigned_to: opt_view(self.assigned_to),
            requirement: opt_view(self.requirement),
            mode: self.mode@,
            priority: self.priority,
            status: self.status@,
            progress_percentage: self.progress_percentage,
        }
    }
}

/// The list of experiments.
#[derive(Debug, PartialEq, Eq)]
pub struct ExperimentListResponse {
    pub experiments: Vec<ExperimentListItem>,
}

/// How far an experiment has come.
#[derive(Debug, Clone, Copy, PartialEq, Eq, Structural)]
pub struct ProgressResponse {
    pub completed: usize,
    pub total: usize,
    /// The part of the runs that is done, in whole percent.
    pub percentage: u64,
}

/// An experiment with its progress and what is estimated of it.
#[derive(Debug, PartialEq, Eq)]
pub struct ExperimentDetailResponse {
    pub experiment: Experiment,
    pub progress: ProgressResponse,
    /// The whole seconds from its start to its end.
    pub duration_seconds: Option<i64>,
    pub estimated_remaining_seconds: Option<i128>,
    pub average_task_seconds: Option<i64>,
}

impl ExperimentEntryView {
    /// How far the experiment has come.
    pub open spec fn progress(self) -> ProgressResponse {
        ProgressResponse {
            completed: self.completed() as usize,
            total: self.total() as usize,
            percentage: spec_percentage(self.completed() as int, self.total() as int) as u64,
        }
    }

    /// The line of the experiment in the list.
    pub open spec fn list_item(self) -> ExperimentListItemView {
        let e = self.experiment;
        ExperimentListItemView {
            name: e.name,
            assigned_to: match e.assigned_to {
                Some(a) => Some(a.text()),
                None => None,
            },
            requirement: e.requirement,
            mode: e.mode.spec_str(),
            priority: e.priority,
            status: e.status.spec_str(),
            progress_percentage: self.progress().percentage,
        }
    }
}

fn progress_at(db: &Database, i: usize) -> (r: ProgressResponse)
    requires
        db@.wf(),
        i < db@.experiments.len(),
    ensures
        r == db@.experiments[i as int].progress(),
        r.completed == db@.experiments[i as int].completed(),
        r.total == db@.experiments[i as int].total(),
        r.completed <= r.total,
{
    let name = db.entries[i].experiment.name.as_str();
    proof {
        assert(db@.names()[i as int] == name@);
        crate::db::lemma_key_found(db@.names(), name@, i as int);
    }
    match db.get_experiment_progress(name) {
        Ok((completed, total)) => {
            let e = estimate(completed, total, None, db.entries[i].experiment.created_at);
            ProgressResponse { completed, total, percentage: e.percentage }
        },
        Err(_) => ProgressResponse { completed: 0, total: 0, percentage: 0 },
    }
}

/// The list of experiments, newest first, each with the part of its runs
/// that is done.
pub fn list_experiments(db: &Database) -> (r: Result<ExperimentListResponse, ApiError>)
    requires
        db@.wf(),
    ensures
        r is Ok,
        views(r.unwrap().experiments@) == Seq::new(
            db@.experiments.len(),
            |i: int| db@.experiments[i].list_item(),
        ),
{
    let mut items: Vec<ExperimentListItem> = Vec::new();
    let mut i: usize = 0;
    while i < db.entries.len()
        invariant
            db@.wf(),
            0 <= i <= db.entries.len(),
            db.entries@.len() == db@.experiments.len(),
            items@.len() == i,
            forall|j: int| 0 <= j < i ==> items@[j]@ == db@.experiments[j].list_item(),
        decreases db.entries.len() - i,
    {
        let progress = progress_at(db, i);
        let e = &db.entries[i].experiment;
        items.push(
            ExperimentListItem {
                name: e.name.clone(),
                assigned_to: match &e.assigned_to {
                    Some(a) => Some(a.to_string()),
                    None => None,
                },
                requirement: clone_opt_string(&e.requirement),
                mode: e.mode.to_string(),
                priority: e.priority,
                status: e.status.to_string(),
                progress_percentage: progress.percentage,
            },
        );
        i += 1;
    }
    assert(views(items@) =~= Seq::new(
        db@.experiments.len(),
        |i: int| db@.experiments[i].list_item(),
    ));
    Ok(ExperimentListResponse { experiments: items })
}

/// How far the experiment called `name` has come. An experiment that is
/// not there is answered as not found.
pub fn get_progress(db: &Database, name: &str) -> (r: Result<ProgressResponse, ApiError>)
    requires
        db@.wf(),
    ensures
        match db@.entry(name@) {
            Some(entry) => r == Ok::<ProgressResponse, ApiError>(entry.progress())
                && r.unwrap().completed <= r.unwrap().total,
            None => r is Err && r.unwrap_err()@ == ApiErrorView::NotFound(
                experiment_not_found(name@),
            ),
        },
{
    match db.position(name) {
        Some(i) => Ok(progress_at(db, i)),
        None => Err(ApiError::NotFound(concat3("Experiment '", name, "' not found"))),
    }
}

/// The experiment called `name` with its progress at `now`, how long it
/// ran, how long one run takes on average and how long the runs still to
/// do will take. An experiment that is not there is answered as not
/// found.
pub fn get_experiment(db: &Database, name: &str, now: Timestamp) -> (r: Result<
    ExperimentDetailResponse,
    ApiError,
>)
    requires
        db@.wf(),
    ensures
        match db@.entry(name@) {
            Some(entry) => {
                &&& r is Ok
                &&& r.unwrap().experiment@ == entry.experiment
                &&& r.unwrap().progress == entry.progress()
                &&& match entry.experiment.duration() {
                    Some(d) => r.unwrap().duration_seconds == Some(d as i64),
                    None => r.unwrap().duration_seconds is None,
                }
                &&& match spec_average(entry.completed() as int, entry.experiment.started_at, now) {
                    Some(avg) => r.unwrap().average_task_seconds == Some(avg as i64),
                    None => r.unwrap().average_task_seconds is None,
                }
                &&& match spec_remaining(
                    entry.completed() as int,
                    entry.total() as int,
                    entry.experiment.started_at,
                    now,
                ) {
                    Some(eta) => r.unwrap().estimated_remaining_seconds == Some(eta as i128),
                    None => r.unwrap().estimated_remaining_seconds is None,
                }
            },
            None => r is Err && r.unwrap_err()@ == ApiErrorView::NotFound(
                experiment_not_found(name@),
            ),
        },
{
    let i = match db.position(name) {
        Some(i) => i,
        None => {
            return Err(ApiError::NotFound(concat3("Experiment '", name, "' not found")));
        },
    };
    let progress = progress_at(db, i);
    let experiment = db.entries[i].experiment.clone();
    let e = estimate(progress.completed, progress.total, experiment.started_at, now);
    let duration_seconds = experiment.duration();
    Ok(
        ExperimentDetailResponse {
            experiment,
            progress,
            duration_seconds,
            estimated_remaining_seconds: e.estimated_remaining_seconds,
            average_task_seconds: e.average_task_seconds,
        },
    )
}

} // verus!
