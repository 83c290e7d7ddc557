//! The definition of an experiment on the command line.

use crate::actions::experiments::{experiment_result_view, CreateExperiment, CreateExperimentView};
use crate::db::experiments::{Database, DatabaseView};
use crate::experiments::{spec_parse_select, CrateSelect, Experiment, ExperimentView, Mode};
use crate::model::views;
use crate::time::Timestamp;
use crate::toolchain::{Toolchain, ToolchainView};
use crate::{Error, Fallible};
use vstd::prelude::*;

verus! {

/// What a definition on the command line asks for, where its texts parse:
/// an experiment without an issue and without a place to send notices.
pub open spec fn spec_definition(
    name: Seq<char>,
    toolchain1: Seq<char>,
    toolchain2: Seq<char>,
    crate_select: Seq<char>,
    mode: Seq<char>,
    priority: i32,
) -> Option<CreateExperimentView> {
    match (
        crate::toolchain::spec_parse(toolchain1),
        crate::toolchain::spec_parse(toolchain2),
        Mode::spec_parse(mode),
        spec_parse_select(crate_select),
    ) {
        (Some(a), Some(b), Some(mode), Some(crate_select)) => Some(
            CreateExperimentView {
                name,
                toolchains: seq![ToolchainView::plain(a), ToolchainView::plain(b)],
                mode,
                crate_select,
                platform_issue: None,
                callback_url: None,
                priority,
            },
        ),
        _ => None,
    }
}

/// Defines an experiment at `now`. `BadRequest`, and nothing done, where
/// a toolchain, the mode or the selection of packages does not parse;
/// otherwise what the store makes of the creation.
pub fn define_ex(
    db: &mut Database,
    name: String,
    toolchain1: String,
    toolchain2: String,
    crate_select: String,
    mode: String,
    priority: i32,
    now: Timestamp,
) -> (r: Fallible<Experiment>)
    requires
        old(db)@.wf(),
    ensures
        final(db)@.wf(),
        match spec_definition(name@, toolchain1@, toolchain2@, crate_select@, mode@, priority) {
            None => r == Err::<Experiment, Error>(Error::BadRequest) && final(db)@ == old(db)@,
            Some(v) => old(db)@.create_outcome(final(db)@, experiment_result_view(r), v, now),
        },
{
    let tc1 = match Toolchain::from_str(toolchain1.as_str()) {
        Ok(t) => t,
        Err(e) => {
            return Err(e);
        },
    };
    let tc2 = match Toolchain::from_str(toolchain2.as_str()) {
        Ok(t) => t,
        Err(e) => {
            return Err(e);
        },
    };
    let mode = match Mode::from_str(mode.as_str()) {
        Ok(m) => m,
        Err(e) => {
            return Err(e);
        },
    };
    let crate_select = match CrateSelect::from_str(crate_select.as_str()) {
        Ok(c) => c,
        Err(e) => {
            return Err(e);
        },
    };
    let toolchains = [tc1, tc2];
    assert(views(toolchains@) =~= seq![tc1@, tc2@]);
    let req = CreateExperiment {
        name,
        toolchains,
        mode,
        crate_select,
        platform_issue: None,
        callback_url: None,
        priority,
    };
    db.create_at(req, now)
}

} // verus!
