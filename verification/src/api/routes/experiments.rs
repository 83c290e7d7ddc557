//! Requests about experiments.

use crate::actions::experiments::{
    experiment_result_view, CreateExperiment, CreateExperimentView, EditExperiment,
    EditExperimentView,
};
use crate::api::error::{answer, answer_view, answered, ApiError, ApiErrorView};
use crate::db::experiments::{Database, DatabaseView};
use crate::experiments::{
    spec_parse_select, CrateSelect, CrateSelectView, Experiment, ExperimentView, Mode,
    PlatformIssue, Status,
};
use crate::model::{opt_view, views};
use crate::text::concat3;
use crate::time::Timestamp;
use crate::toolchain::{Toolchain, ToolchainView};
use crate::Error;
use vstd::prelude::*;

verus! {

/// What is sent to create an experiment: the toolchains, the mode and the
/// selection of packages as texts.
#[derive(Debug)]
pub struct CreateExperimentRequest {
    pub name: String,
    pub toolchains: [String; 2],
    pub mode: String,
    pub crate_select: String,
    pub platform_issue: Option<PlatformIssue>,
    pub callback_url: Option<String>,
    pub priority: i32,
}

/// What is sent to edit an experiment.
#[derive(Debug)]
pub struct EditExperimentRequest {
    pub name: Option<String>,
    pub mode: Option<String>,
    pub crate_select: Option<String>,
    pub platform_issue: Option<PlatformIssue>,
    pub callback_url: Option<String>,
    pub priority: Option<i32>,
}

/// The answer that holds one experiment.
#[derive(Debug)]
pub struct ExperimentResponse {
    pub experiment: Experiment,
}

/// The answer that holds all experiments.
#[derive(Debug)]
pub struct ExperimentListResponse {
    pub experiments: Vec<Experiment>,
}

impl CreateExperimentRequest {
    /// What the request asks for, where its texts parse.
    pub open spec fn parsed(&self) -> Option<CreateExperimentView> {
        match (
            crate::toolchain::spec_parse(self.toolchains@[0]@),
            crate::toolchain::spec_parse(self.toolchains@[1]@),
            Mode::spec_parse(self.mode@),
            spec_parse_select(self.crate_select@),
        ) {
            (Some(a), Some(b), Some(mode), Some(crate_select)) => Some(
                CreateExperimentView {
                    name: self.name@,
                    toolchains: seq![ToolchainView::plain(a), ToolchainView::plain(b)],
                    mode,
                    crate_select,
                    platform_issue: opt_view(self.platform_issue),
                    callback_url: opt_view(self.callback_url),
                    priority: self.priority,
                },
            ),
            _ => None,
        }
    }

    /// What the request asks for; `BadRequest` where one of its texts does
    /// not parse.
    pub fn parse(self) -> (r: Result<CreateExperiment, Error>)
        ensures
            match self.parsed() {
                Some(v) => r is Ok && r.unwrap()@ == v,
                None => r == Err::<CreateExperiment, Error>(Error::BadRequest),
            },
    {
        let a = match Toolchain::from_str(self.toolchains[0].as_str()) {
            Ok(t) => t,
            Err(e) => {
                return Err(e);
            },
        };
        let b = match Toolchain::from_str(self.toolchains[1].as_str()) {
            Ok(t) => t,
            Err(e) => {
                return Err(e);
            },
        };
        let mode = match Mode::from_str(self.mode.as_str()) {
            Ok(m) => m,
            Err(e) => {
                return Err(e);
            },
        };
        let crate_select = match CrateSelect::from_str(self.crate_select.as_str()) {
            Ok(c) => c,
            Err(e) => {
                return Err(e);
            },
        };
        let toolchains = [a, b];
        assert(views(toolchains@) =~= seq![a@, b@]);
        Ok(
            CreateExperiment {
                name: self.name,
                toolchains,
                mode,
                crate_select,
                platform_issue: self.platform_issue,
                callback_url: self.callback_url,
                priority: self.priority,
            },
        )
    }
}

/// What an optional text parses to: no text is nothing to parse; a text
/// must parse.
pub open spec fn parse_opt<T>(text: Option<Seq<char>>, parse: spec_fn(Seq<char>) -> Option<T>) -> Option<
    Option<T>,
> {
    match text {
        None => Some(None),
        Some(t) => match parse(t) {
            Some(v) => Some(Some(v)),
            None => None,
        },
    }
}

impl EditExperimentRequest {
    /// What the request asks for, where its texts parse.
    pub open spec fn parsed(&self) -> Option<EditExperimentView> {
        match (
            parse_opt(opt_view(self.mode), |t: Seq<char>| Mode::spec_parse(t)),
            parse_opt(opt_view(self.crate_select), |t: Seq<char>| spec_parse_select(t)),
        ) {
            (Some(mode), Some(crate_select)) => Some(
                EditExperimentView {
                    name: opt_view(self.name),
                    mode,
                    crate_select,
                    platform_issue: opt_view(self.platform_issue),
                    callback_url: opt_view(self.callback_url),
                    priority: self.priority,
                },
            ),
            _ => None,
        }
    }

    /// What the request asks for; `BadRequest` where one of its texts does
    /// not parse.
    pub fn parse(self) -> (r: Result<EditExperiment, Error>)
        ensures
            match self.parsed() {
                Some(v) => r is Ok && r.unwrap()@ == v,
                None => r == Err::<EditExperiment, Error>(Error::BadRequest),
            },
    {
        let mode = match &self.mode {
            Some(m) => match Mode::from_str(m.as_str()) {
                Ok(m) => Some(m),
                Err(e) => {
                    return Err(e);
                },
            },
            None => None,
        };
        let crate_select = match &self.crate_select {
            Some(c) => match CrateSelect::from_str(c.as_str()) {
                Ok(c) => Some(c),
                Err(e) => {
                    return Err(e);
                },
            },
            None => None,
        };
        Ok(
            EditExperiment {
                name: self.name,
                mode,
                crate_select,
                platform_issue: self.platform_issue,
                callback_url: self.callback_url,
                priority: self.priority,
            },
        )
    }
}

/// The message that says that no experiment is called `name`.
pub open spec fn experiment_not_found(name: Seq<char>) -> Seq<char> {
    "Experiment '"@ + name + "' not found"@
}

/// The view of an answer that holds one experiment.
pub open spec fn response_view(r: Result<ExperimentResponse, ApiError>) -> Result<
    ExperimentView,
    ApiErrorView,
> {
    match r {
        Ok(x) => Ok(x.experiment@),
        Err(e) => Err(e@),
    }
}

fn respond(inner: Result<Experiment, Error>) -> (r: Result<ExperimentResponse, ApiError>)
    ensures
        answered(experiment_result_view(inner), response_view(r)),
{
    match inner {
        Ok(experiment) => Ok(ExperimentResponse { experiment }),
        Err(e) => Err(ApiError::from_error(e)),
    }
}

/// Creates an experiment at `now`. A request that does not parse is
/// answered as a bad request and changes nothing; otherwise the answer is
/// what the store makes of the creation.
pub fn create_experiment(db: &mut Database, req: CreateExperimentRequest, now: Timestamp) -> (r:
    Result<ExperimentResponse, ApiError>)
    requires
        old(db)@.wf(),
    ensures
        final(db)@.wf(),
        match req.parsed() {
            None => final(db)@ == old(db)@ && response_view(r) == Err::<
                ExperimentView,
                ApiErrorView,
            >(ApiErrorView::of(Error::BadRequest, Error::BadRequest.spec_describe())),
            Some(v) => exists|inner: Result<ExperimentView, Error>| #[trigger]
                old(db)@.create_outcome(final(db)@, inner, v, now) && answered(
                    inner,
                    response_view(r),
                ),
        },
{
    let create = match req.parse() {
        Ok(c) => c,
        Err(e) => {
            return Err(ApiError::from_error(e));
        },
    };
    let inner = db.create_at(create, now);
    let r = respond(inner);
    assert(old(db)@.create_outcome(db@, experiment_result_view(inner), req.parsed().unwrap(), now));
    r
}

/// All experiments, newest first.
pub fn list_experiments(db: &Database) -> (r: Result<ExperimentListResponse, ApiError>)
    requires
        db@.wf(),
    ensures
        r is Ok,
        views(r.unwrap().experiments@) == db@.all_experiments(),
{
    match db.list() {
        Ok(experiments) => Ok(ExperimentListResponse { experiments }),
        Err(e) => Err(ApiError::from_error(e)),
    }
}

/// The experiment called `name`. An experiment that is not there is
/// answered as not found.
pub fn get_experiment(db: &Database, name: &str) -> (r: Result<ExperimentResponse, ApiError>)
    requires
        db@.wf(),
    ensures
        response_view(r) == (match db@.experiment(name@) {
            Some(e) => Ok::<ExperimentView, ApiErrorView>(e),
            None => Err::<ExperimentView, ApiErrorView>(
                ApiErrorView::NotFound(experiment_not_found(name@)),
            ),
        }),
{
    match db.get(name) {
        Ok(Some(experiment)) => Ok(ExperimentResponse { experiment }),
        _ => Err(ApiError::NotFound(concat3("Experiment '", name, "' not found"))),
    }
}

/// Edits the experiment called `name`. A request that does not parse is
/// answered as a bad request and changes nothing; otherwise the answer is
/// what the store makes of the edit.
pub fn edit_experiment(db: &mut Database, name: &str, req: EditExperimentRequest) -> (r: Result<
    ExperimentResponse,
    ApiError,
>)
    requires
        old(db)@.wf(),
    ensures
        final(db)@.wf(),
        match req.parsed() {
            None => final(db)@ == old(db)@ && response_view(r) == Err::<
                ExperimentView,
                ApiErrorView,
            >(ApiErrorView::of(Error::BadRequest, Error::BadRequest.spec_describe())),
            Some(v) => exists|inner: Result<ExperimentView, Error>| #[trigger]
                old(db)@.edit_outcome(final(db)@, inner, name@, v) && answered(
                    inner,
                    response_view(r),
                ),
        },
{
    let edit = match req.parse() {
        Ok(e) => e,
        Err(e) => {
            return Err(ApiError::from_error(e));
        },
    };
    let inner = db.edit(name, edit);
    let r = respond(inner);
    assert(old(db)@.edit_outcome(db@, experiment_result_view(inner), name@, req.parsed().unwrap()));
    r
}

/// Deletes the experiment called `name`: the answer is what the store
/// makes of the deletion.
pub fn delete_experiment(db: &mut Database, name: &str) -> (r: Result<(), ApiError>)
    requires
        old(db)@.wf(),
    ensures
        final(db)@.wf(),
        exists|inner: Result<(), Error>| #[trigger]
            old(db)@.delete_outcome(final(db)@, inner, name@) && answered(inner, answer_view(r)),
{
    let inner = db.delete(name);
    let r = answer(inner);
    assert(old(db)@.delete_outcome(db@, inner, name@));
    r
}

/// Starts the experiment called `name` at `now`: the answer is what the
/// store makes of the step.
pub fn run_experiment(db: &mut Database, name: &str, now: Timestamp) -> (r: Result<(), ApiError>)
    requires
        old(db)@.wf(),
    ensures
        final(db)@.wf(),
        exists|inner: Result<(), Error>| #[trigger]
            old(db)@.transition_outcome(final(db)@, inner, name@, Status::Running, now)
                && answered(inner, answer_view(r)),
{
    let inner = db.run_at(name, now);
    let r = answer(inner);
    assert(old(db)@.transition_outcome(db@, inner, name@, Status::Running, now));
    r
}

/// Gives up the experiment called `name` at `now`: the answer is what the
/// store makes of the step.
pub fn abort_experiment(db: &mut Database, name: &str, now: Timestamp) -> (r: Result<(), ApiError>)
    requires
        old(db)@.wf(),
    ensures
        final(db)@.wf(),
        exists|inner: Result<(), Error>| #[trigger]
            old(db)@.transition_outcome(final(db)@, inner, name@, Status::ReportFailed, now)
                && answered(inner, answer_view(r)),
{
    let inner = db.abort_at(name, "Aborted by user", now);
    let r = answer(inner);
    assert(old(db)@.transition_outcome(db@, inner, name@, Status::ReportFailed, now));
    r
}

} // verus!
