use crater_ohos::actions::experiments::{CreateExperiment, EditExperiment, ExperimentActions};
use crater_ohos::db::experiments::ExperimentMetadata;
use crater_ohos::db::Database;
use crater_ohos::experiments::{
    Assignee, CapLints, CrateSelect, Experiment, Mode, PlatformIssue, Status,
};
use crater_ohos::time::Timestamp;
use crater_ohos::toolchain::{RustwideToolchain, Toolchain};
use crater_ohos::Error;
use std::str::FromStr;

fn at(secs: i64) -> Timestamp {
    Timestamp::new(secs, 0).unwrap()
}

fn request(name: &str, priority: i32) -> CreateExperiment {
    CreateExperiment {
        name: name.to_string(),
        toolchains: [
            Toolchain::from_str("stable").unwrap(),
            Toolchain::from_str("beta").unwrap(),
        ],
        mode: Mode::BuildAndTest,
        crate_select: CrateSelect::Demo,
        platform_issue: None,
        callback_url: None,
        priority,
    }
}

#[test]
fn test_create_experiment() {
    let mut db = Database::temp().unwrap();
    let req = CreateExperiment {
        name: "test-exp".to_string(),
        toolchains: [
            Toolchain {
                source: RustwideToolchain::Dist("stable".to_string()),
                target: None,
                rustflags: None,
                rustdocflags: None,
                cargoflags: None,
                ci_try: false,
                patches: vec![],
            },
            Toolchain {
                source: RustwideToolchain::Dist("beta".to_string()),
                target: None,
                rustflags: None,
                rustdocflags: None,
                cargoflags: None,
                ci_try: false,
                patches: vec![],
            },
        ],
        mode: Mode::BuildAndTest,
        crate_select: CrateSelect::Demo,
        platform_issue: None,
        callback_url: Some("https://example.com/callback".to_string()),
        priority: 0,
    };
    let exp = db.create(req).unwrap();
    assert_eq!(exp.name, "test-exp");
    assert_eq!(exp.status, Status::Queued);
    assert_eq!(exp.mode, Mode::BuildAndTest);
}

#[test]
fn test_edit_experiment_only_queued() {
    let mut db = Database::temp().unwrap();

    let req = CreateExperiment {
        name: "test-exp".to_string(),
        toolchains: [
            Toolchain::from_str("stable").unwrap(),
            Toolchain::from_str("beta").unwrap(),
        ],
        mode: Mode::BuildAndTest,
        crate_select: CrateSelect::Demo,
        platform_issue: None,
        callback_url: None,
        priority: 0,
    };
    db.create(req).unwrap();

    let edit_req = EditExperiment {
        priority: Some(10),
        ..Default::default()
    };
    let result = db.edit("test-exp", edit_req);
    assert!(result.is_ok());

    db.run("test-exp").unwrap();

    let edit_req = EditExperiment {
        priority: Some(20),
        ..Default::default()
    };
    let result = db.edit("test-exp", edit_req);
    assert!(result.is_err());
}

#[test]
fn test_delete_experiment_only_queued() {
    let mut db = Database::temp().unwrap();

    let req = CreateExperiment {
        name: "test-exp".to_string(),
        toolchains: [
            Toolchain::from_str("stable").unwrap(),
            Toolchain::from_str("beta").unwrap(),
        ],
        mode: Mode::BuildAndTest,
        crate_select: CrateSelect::Demo,
        platform_issue: None,
        callback_url: None,
        priority: 0,
    };
    db.create(req).unwrap();

    let result = db.delete("test-exp");
    assert!(result.is_ok());

    let exp = db.get("test-exp").unwrap();
    assert!(exp.is_none());
}

#[test]
fn test_experiment_lifecycle() {
    let mut db = Database::temp().unwrap();

    let req = CreateExperiment {
        name: "lifecycle-test".to_string(),
        toolchains: [
            Toolchain::from_str("stable").unwrap(),
            Toolchain::from_str("beta").unwrap(),
        ],
        mode: Mode::BuildAndTest,
        crate_select: CrateSelect::Demo,
        platform_issue: None,
        callback_url: None,
        priority: 0,
    };
    db.create(req).unwrap();

    let exp = db.get("lifecycle-test").unwrap();
    assert!(exp.is_some());
    assert_eq!(exp.unwrap().status, Status::Queued);

    db.run("lifecycle-test").unwrap();
    let exp = db.get("lifecycle-test").unwrap();
    assert_eq!(exp.unwrap().status, Status::Running);

    db.complete("lifecycle-test").unwrap();
    let exp = db.get("lifecycle-test").unwrap();
    assert_eq!(exp.unwrap().status, Status::Completed);
}

#[test]
fn test_list_experiments() {
    let mut db = Database::temp().unwrap();

    for i in 0..3 {
        let req = CreateExperiment {
            name: format!("exp-{}", i),
            toolchains: [
                Toolchain::from_str("stable").unwrap(),
                Toolchain::from_str("beta").unwrap(),
            ],
            mode: Mode::BuildAndTest,
            crate_select: CrateSelect::Demo,
            platform_issue: None,
            callback_url: None,
            priority: i,
        };
        db.create(req).unwrap();
    }

    let experiments = db.list().unwrap();
    assert_eq!(experiments.len(), 3);
}

#[test]
fn service_integration_test_experiment_workflow() {
    let mut db = Database::temp().unwrap();

    let req = CreateExperiment {
        name: "integration-test".to_string(),
        toolchains: [
            Toolchain::from_str("stable").unwrap(),
            Toolchain::from_str("beta").unwrap(),
        ],
        mode: Mode::BuildAndTest,
        crate_select: CrateSelect::Demo,
        platform_issue: Some(PlatformIssue {
            platform: "github".to_string(),
            api_url: "https://api.github.com/repos/test/test/issues/1".to_string(),
            html_url: "https://github.com/test/test/issues/1".to_string(),
            identifier: "1".to_string(),
        }),
        callback_url: Some("https://example.com/callback".to_string()),
        priority: 0,
    };

    let exp = db.create(req).unwrap();
    assert_eq!(exp.name, "integration-test");
    assert_eq!(exp.status, Status::Queued);

    let edit_req = EditExperiment {
        priority: Some(10),
        ..Default::default()
    };
    let exp = db.edit("integration-test", edit_req).unwrap();
    assert_eq!(exp.priority, 10);

    db.run("integration-test").unwrap();
    let exp = db.get("integration-test").unwrap().unwrap();
    assert_eq!(exp.status, Status::Running);

    db.complete("integration-test").unwrap();
    let exp = db.get("integration-test").unwrap().unwrap();
    assert_eq!(exp.status, Status::Completed);
    assert!(exp.started_at.is_some());
    assert!(exp.completed_at.is_some());
}

#[test]
fn test_experiment_creation_for_api() {
    let mut db = Database::temp().unwrap();

    let req = CreateExperiment {
        name: "test-api-experiment".to_string(),
        toolchains: [
            Toolchain::from_str("stable").unwrap(),
            Toolchain::from_str("beta").unwrap(),
        ],
        mode: Mode::BuildAndTest,
        crate_select: CrateSelect::Demo,
        platform_issue: None,
        callback_url: None,
        priority: 0,
    };

    let experiment = db.create(req).unwrap();
    assert_eq!(experiment.name, "test-api-experiment");

    let experiments = db.list().unwrap();
    assert_eq!(experiments.len(), 1);

    let retrieved = db.get("test-api-experiment").unwrap();
    assert!(retrieved.is_some());
}

#[test]
fn scenario_create_run_complete() {
    let mut db = Database::temp().unwrap();
    let created = db.create_at(request("exp1", 0), at(100)).unwrap();
    assert_eq!(created.created_at, at(100));
    assert_eq!(created.cap_lints, CapLints::Warn);
    let e = db.get("exp1").unwrap().unwrap();
    assert_eq!(e, created);
    assert_eq!(e.status, Status::Queued);
    assert_eq!(e.started_at, None);
    assert_eq!(e.completed_at, None);
    assert_eq!(e.toolchains[0].to_string(), "stable");
    assert_eq!(e.toolchains[1].to_string(), "beta");

    assert_eq!(db.run_at("exp1", at(150)), Ok(()));
    let e = db.get("exp1").unwrap().unwrap();
    assert_eq!(e.status, Status::Running);
    assert_eq!(e.started_at, Some(at(150)));
    assert_eq!(e.completed_at, None);
    assert_eq!(e.duration(), None);

    assert_eq!(db.complete_at("exp1", at(175)), Ok(()));
    let e = db.get("exp1").unwrap().unwrap();
    assert_eq!(e.status, Status::Completed);
    assert_eq!(e.started_at, Some(at(150)));
    assert_eq!(e.completed_at, Some(at(175)));
    assert_eq!(e.duration(), Some(25));
    assert!(e.is_consistent());
}

#[test]
fn scenario_edit_gated() {
    let mut db = Database::temp().unwrap();
    db.create_at(request("exp2", 0), at(1)).unwrap();
    let edited = db
        .edit("exp2", EditExperiment { priority: Some(10), ..Default::default() })
        .unwrap();
    assert_eq!(edited.priority, 10);
    assert_eq!(db.get("exp2").unwrap().unwrap().priority, 10);
    db.run_at("exp2", at(2)).unwrap();
    assert_eq!(
        db.edit("exp2", EditExperiment { priority: Some(20), ..Default::default() }),
        Err(Error::InvalidState)
    );
    assert_eq!(db.get("exp2").unwrap().unwrap().priority, 10);
    assert_eq!(db.delete("exp2"), Err(Error::InvalidState));
    assert!(db.get("exp2").unwrap().is_some());
}

#[test]
fn create_rejects_taken_and_empty_names() {
    let mut db = Database::temp().unwrap();
    db.create_at(request("a", 0), at(1)).unwrap();
    assert_eq!(db.create_at(request("a", 5), at(2)), Err(Error::AlreadyExists));
    assert_eq!(db.create_at(request("", 5), at(2)), Err(Error::BadRequest));
    assert_eq!(db.list().unwrap().len(), 1);
    assert_eq!(db.get("a").unwrap().unwrap().priority, 0);
}

#[test]
fn list_is_newest_first() {
    let mut db = Database::temp().unwrap();
    db.create_at(request("middle", 0), at(20)).unwrap();
    db.create_at(request("oldest", 0), at(10)).unwrap();
    db.create_at(request("newest", 0), at(30)).unwrap();
    db.create_at(request("twin", 0), at(20)).unwrap();
    let names: Vec<String> = db.list().unwrap().into_iter().map(|e| e.name).collect();
    assert_eq!(names, vec!["newest", "twin", "middle", "oldest"]);
    db.delete("middle").unwrap();
    let names: Vec<String> = db.list().unwrap().into_iter().map(|e| e.name).collect();
    assert_eq!(names, vec!["newest", "twin", "oldest"]);
}

#[test]
fn edit_applies_every_given_part() {
    let mut db = Database::temp().unwrap();
    db.create_at(request("a", 0), at(1)).unwrap();
    db.create_at(request("b", 0), at(2)).unwrap();
    assert_eq!(db.edit("missing", EditExperiment::default()), Err(Error::NotFound));
    // The empty edit gives the experiment back as it is.
    let same = db.edit("a", EditExperiment::default()).unwrap();
    assert_eq!(same, db.get("a").unwrap().unwrap());
    assert_eq!(db.get_metadata("a").unwrap(), None);

    let issue = PlatformIssue {
        platform: "gitcode".to_string(),
        api_url: "api".to_string(),
        html_url: "html".to_string(),
        identifier: "7".to_string(),
    };
    let edited = db
        .edit(
            "a",
            EditExperiment {
                name: Some("renamed".to_string()),
                mode: Some(Mode::CheckOnly),
                crate_select: Some(CrateSelect::Top(10)),
                platform_issue: Some(issue.clone()),
                callback_url: Some("https://example.com/cb".to_string()),
                priority: Some(-3),
            },
        )
        .unwrap();
    assert_eq!(edited.name, "renamed");
    assert_eq!(edited.mode, Mode::CheckOnly);
    assert_eq!(edited.platform_issue, Some(issue));
    assert_eq!(edited.priority, -3);
    assert_eq!(edited.created_at, at(1));
    assert!(db.get("a").unwrap().is_none());
    assert_eq!(db.get("renamed").unwrap().unwrap(), edited);
    assert_eq!(db.get_crate_select("renamed").unwrap(), Some(CrateSelect::Top(10)));
    assert_eq!(
        db.get_metadata("renamed").unwrap(),
        Some(ExperimentMetadata {
            callback_url: Some("https://example.com/cb".to_string()),
            platform: Some("gitcode".to_string()),
            triggered_by: None,
            created_at: at(1),
        })
    );
    // A name that another experiment has cannot be taken; the own name can.
    assert_eq!(
        db.edit("renamed", EditExperiment { name: Some("b".to_string()), ..Default::default() }),
        Err(Error::AlreadyExists)
    );
    assert_eq!(
        db.edit("renamed", EditExperiment { name: Some(String::new()), ..Default::default() }),
        Err(Error::BadRequest)
    );
    assert!(db
        .edit("renamed", EditExperiment { name: Some("renamed".to_string()), ..Default::default() })
        .is_ok());
    assert_eq!(db.list().unwrap().len(), 2);
}

#[test]
fn create_records_where_to_send_notices() {
    let mut db = Database::temp().unwrap();
    let mut req = request("a", 0);
    req.callback_url = Some("https://example.com/cb".to_string());
    db.create_at(req, at(5)).unwrap();
    assert_eq!(
        db.get_metadata("a").unwrap(),
        Some(ExperimentMetadata {
            callback_url: Some("https://example.com/cb".to_string()),
            platform: Some("unknown".to_string()),
            triggered_by: None,
            created_at: at(5),
        })
    );
    assert_eq!(db.get_crate_select("a").unwrap(), Some(CrateSelect::Demo));
    assert_eq!(db.get_metadata("b").unwrap(), None);
    assert_eq!(db.get_crate_select("b").unwrap(), None);
}

#[test]
fn transitions_follow_the_state_machine() {
    let all = [
        Status::Queued,
        Status::Running,
        Status::NeedsReport,
        Status::GeneratingReport,
        Status::ReportFailed,
        Status::Completed,
    ];
    let legal = [
        (Status::Queued, Status::Running),
        (Status::Running, Status::Completed),
        (Status::Running, Status::ReportFailed),
        (Status::Running, Status::NeedsReport),
        (Status::NeedsReport, Status::GeneratingReport),
        (Status::GeneratingReport, Status::Completed),
        (Status::GeneratingReport, Status::ReportFailed),
    ];
    // The steps that lead from the queue to each state.
    let path = |to: Status| -> Vec<Status> {
        match to {
            Status::Queued => vec![],
            Status::Running => vec![Status::Running],
            Status::NeedsReport => vec![Status::Running, Status::NeedsReport],
            Status::GeneratingReport => {
                vec![Status::Running, Status::NeedsReport, Status::GeneratingReport]
            }
            Status::ReportFailed => vec![Status::Running, Status::ReportFailed],
            Status::Completed => vec![Status::Running, Status::Completed],
        }
    };
    for from in all {
        for to in all {
            let mut db = Database::temp().unwrap();
            db.create_at(request("e", 0), at(10)).unwrap();
            for (k, step) in path(from).into_iter().enumerate() {
                db.transition_at("e", step, at(20 + k as i64)).unwrap();
            }
            let before = db.get("e").unwrap().unwrap();
            assert_eq!(before.status, from);
            let r = db.transition_at("e", to, at(50));
            let after = db.get("e").unwrap().unwrap();
            if legal.contains(&(from, to)) {
                assert_eq!(r, Ok(()), "{:?} -> {:?}", from, to);
                assert_eq!(after.status, to);
            } else {
                assert_eq!(r, Err(Error::InvalidState), "{:?} -> {:?}", from, to);
                assert_eq!(after, before);
            }
            assert!(after.is_consistent());
            assert_eq!(after.started_at.is_some(), after.status != Status::Queued);
            assert_eq!(
                after.completed_at.is_some(),
                after.status == Status::Completed || after.status == Status::ReportFailed
            );
        }
    }
    let mut db = Database::temp().unwrap();
    assert_eq!(db.transition_at("none", Status::Running, at(1)), Err(Error::NotFound));
    assert_eq!(db.run("none"), Err(Error::NotFound));
    assert_eq!(db.complete("none"), Err(Error::NotFound));
    assert_eq!(db.abort("none", "why"), Err(Error::NotFound));
}

#[test]
fn times_never_run_backwards() {
    let mut db = Database::temp().unwrap();
    db.create_at(request("e", 0), at(100)).unwrap();
    db.run_at("e", at(50)).unwrap();
    assert_eq!(db.get("e").unwrap().unwrap().started_at, Some(at(100)));
    db.abort_at("e", "why", at(70)).unwrap();
    let e = db.get("e").unwrap().unwrap();
    assert_eq!(e.status, Status::ReportFailed);
    assert_eq!(e.completed_at, Some(at(100)));
    assert_eq!(e.duration(), Some(0));
}

#[test]
fn assignee_only_while_running() {
    let mut db = Database::temp().unwrap();
    db.create_at(request("e", 0), at(1)).unwrap();
    assert_eq!(db.assign("e", "agent-1"), Err(Error::InvalidState));
    assert_eq!(db.assign("x", "agent-1"), Err(Error::NotFound));
    db.run_at("e", at(2)).unwrap();
    assert_eq!(db.assign("e", "agent-1"), Ok(()));
    assert_eq!(
        db.get("e").unwrap().unwrap().assigned_to,
        Some(Assignee::Agent("agent-1".to_string()))
    );
    assert_eq!(db.clear_assignee("e"), Ok(()));
    assert_eq!(db.get("e").unwrap().unwrap().assigned_to, None);
    db.complete_at("e", at(3)).unwrap();
    assert_eq!(db.clear_assignee("e"), Err(Error::InvalidState));
    assert_eq!(db.clear_assignee("x"), Err(Error::NotFound));
}

#[test]
fn restore_takes_only_what_is_in_order() {
    let mut db = Database::temp().unwrap();
    let good = Experiment {
        name: "old".to_string(),
        toolchains: [
            Toolchain::from_str("stable").unwrap(),
            Toolchain::from_str("beta").unwrap(),
        ],
        mode: Mode::Fix,
        cap_lints: CapLints::Deny,
        priority: 1,
        created_at: at(10),
        started_at: Some(at(11)),
        completed_at: Some(at(12)),
        platform_issue: None,
        status: Status::Completed,
        assigned_to: None,
        report_url: Some("https://example.com/r".to_string()),
        ignore_blacklist: true,
        requirement: None,
    };
    assert!(good.is_consistent());
    assert_eq!(db.restore_experiment(good.clone(), CrateSelect::Full, None), Ok(()));
    assert_eq!(db.get("old").unwrap().unwrap(), good);
    assert_eq!(
        db.restore_experiment(good.clone(), CrateSelect::Full, None),
        Err(Error::AlreadyExists)
    );
    let bad = [
        Experiment { name: String::new(), ..good.clone() },
        Experiment { name: "b".to_string(), started_at: None, ..good.clone() },
        Experiment { name: "b".to_string(), completed_at: None, ..good.clone() },
        Experiment { name: "b".to_string(), status: Status::Queued, ..good.clone() },
        Experiment { name: "b".to_string(), status: Status::Running, ..good.clone() },
        Experiment { name: "b".to_string(), started_at: Some(at(9)), ..good.clone() },
        Experiment { name: "b".to_string(), completed_at: Some(at(10)), ..good.clone() },
    ];
    for e in bad {
        assert!(!e.is_consistent(), "{:?}", e);
        assert_eq!(db.restore_experiment(e, CrateSelect::Full, None), Err(Error::BadRequest));
    }
    assert_eq!(db.list().unwrap().len(), 1);
}

fn life_through<R: ExperimentActions>(registry: &mut R, name: &str) -> Vec<Status> {
    let mut seen = vec![];
    registry.create(request(name, 0)).unwrap();
    seen.push(registry.get(name).unwrap().unwrap().status);
    registry.edit(name, EditExperiment { priority: Some(1), ..Default::default() }).unwrap();
    registry.run(name).unwrap();
    seen.push(registry.get(name).unwrap().unwrap().status);
    registry.complete(name).unwrap();
    seen.push(registry.list().unwrap()[0].status);
    seen
}

#[test]
fn the_store_is_a_registry_of_experiments() {
    let mut db = Database::temp().unwrap();
    assert_eq!(
        life_through(&mut db, "e"),
        vec![Status::Queued, Status::Running, Status::Completed]
    );
    assert_eq!(ExperimentActions::delete(&mut db, "e"), Err(Error::InvalidState));
    assert_eq!(ExperimentActions::abort(&mut db, "e", "why"), Err(Error::InvalidState));
}
