use crater_ohos::actions::experiments::{CreateExperiment, EditExperiment};
use crater_ohos::crates::{Crate, GitHubRepo, RegistryCrate};
use crater_ohos::db::experiments::ExperimentCrate;
use crater_ohos::db::Database;
use crater_ohos::experiments::{CrateSelect, Experiment, Mode};
use crater_ohos::report::{Comparison, ReadResults, RunResult, TestResults};
use crater_ohos::results::{DatabaseDB, EncodedLog, FailureReason, TestResult};
use crater_ohos::time::Timestamp;
use crater_ohos::toolchain::{RustwideToolchain, Toolchain};
use crater_ohos::Error;

fn toolchain(name: &str) -> Toolchain {
    Toolchain {
        source: RustwideToolchain::Dist(name.to_string()),
        target: None,
        rustflags: None,
        rustdocflags: None,
        cargoflags: None,
        ci_try: false,
        patches: vec![],
    }
}

fn store_with(names: &[&str]) -> Database {
    let mut db = Database::temp().unwrap();
    for (i, name) in names.iter().enumerate() {
        db.create_at(
            CreateExperiment {
                name: name.to_string(),
                toolchains: [toolchain("stable"), toolchain("beta")],
                mode: Mode::BuildAndTest,
                crate_select: CrateSelect::Demo,
                platform_issue: None,
                callback_url: None,
                priority: 0,
            },
            Timestamp::new(i as i64, 0).unwrap(),
        )
        .unwrap();
    }
    db
}

#[test]
fn test_store_and_get_result() {
    let mut db = DatabaseDB::new(store_with(&["exp1"]));

    let krate = Crate::Registry(RegistryCrate::new("test", "1.0.0"));
    let toolchain = Toolchain {
        source: RustwideToolchain::Dist("stable".to_string()),
        target: None,
        rustflags: None,
        rustdocflags: None,
        cargoflags: None,
        ci_try: false,
        patches: vec![],
    };

    let result = TestResult::TestPass;
    let log = EncodedLog::from_plain(b"test log".to_vec());

    db.store_result("exp1", &krate, &toolchain, &result, Some(&log))
        .unwrap();

    let (retrieved_result, retrieved_log) =
        db.get_result("exp1", &krate, &toolchain).unwrap().unwrap();

    assert_eq!(retrieved_result, TestResult::TestPass);
    assert!(retrieved_log.is_some());
    assert_eq!(retrieved_log.unwrap().decode().unwrap(), "test log");
}

#[test]
fn test_get_nonexistent_result() {
    let db = DatabaseDB::new(Database::temp().unwrap());

    let krate = Crate::Registry(RegistryCrate::new("nonexistent", "1.0.0"));
    let toolchain = toolchain("stable");

    let result = db.get_result("exp1", &krate, &toolchain).unwrap();
    assert!(result.is_none());
}

#[test]
fn test_delete_all_results() {
    let mut db = DatabaseDB::new(store_with(&["exp1"]));

    let krate = Crate::Registry(RegistryCrate::new("test", "1.0.0"));
    let toolchain = toolchain("stable");

    db.store_result("exp1", &krate, &toolchain, &TestResult::TestPass, None)
        .unwrap();

    let count = db.get_result_count("exp1").unwrap();
    assert_eq!(count, 1);

    db.delete_all_results("exp1").unwrap();

    let count = db.get_result_count("exp1").unwrap();
    assert_eq!(count, 0);
}

#[test]
fn test_dummy_db_store_and_get() {
    let mut db = store_with(&["exp1"]);

    let krate = Crate::Registry(RegistryCrate::new("test", "1.0.0"));
    let toolchain = toolchain("stable");

    db.store_result(
        "exp1",
        &krate,
        &toolchain,
        &TestResult::TestPass,
        Some(&EncodedLog::from_plain(b"test log".to_vec())),
    )
    .unwrap();

    let (result, log) = db.get_result("exp1", &krate, &toolchain).unwrap().unwrap();
    assert_eq!(result, TestResult::TestPass);
    assert!(log.is_some());
}

#[test]
fn test_dummy_db_delete_all() {
    let mut db = store_with(&["exp1", "exp2"]);

    let krate = Crate::Registry(RegistryCrate::new("test", "1.0.0"));
    let toolchain = toolchain("stable");

    db.store_result("exp1", &krate, &toolchain, &TestResult::TestPass, None).unwrap();
    db.store_result("exp2", &krate, &toolchain, &TestResult::TestPass, None).unwrap();

    assert_eq!(db.get_result_count("exp1").unwrap(), 1);
    assert_eq!(db.get_result_count("exp2").unwrap(), 1);

    db.delete_all_results("exp1").unwrap();

    assert_eq!(db.get_result_count("exp1").unwrap(), 0);
    assert_eq!(db.get_result_count("exp2").unwrap(), 1);
}

#[test]
fn put_then_get_gives_what_was_put() {
    let mut db = store_with(&["e"]);
    let krate = Crate::GitHub(GitHubRepo::with_sha("org", "name", "abc"));
    let tc = toolchain("beta");
    let outcome = TestResult::BuildFail(FailureReason::DependsOn(vec!["reg:a-1".to_string()]));
    let log = EncodedLog::from_gzip(vec![1, 2, 3]);
    assert_eq!(db.store_result("e", &krate, &tc, &outcome, Some(&log)), Ok(()));
    assert_eq!(db.get_result("e", &krate, &tc).unwrap(), Some((outcome.clone(), Some(log))));
    // The key is the identifier: the pinned commit is no part of it.
    let unpinned = Crate::GitHub(GitHubRepo::new("org", "name"));
    assert!(db.get_result("e", &unpinned, &tc).unwrap().is_some());
    // Another toolchain, another package, another experiment: nothing.
    assert_eq!(db.get_result("e", &krate, &toolchain("stable")).unwrap(), None);
    assert_eq!(db.get_result("e", &Crate::Local("x".to_string()), &tc).unwrap(), None);
    assert_eq!(db.get_result("f", &krate, &tc).unwrap(), None);
    assert_eq!(
        db.store_result("f", &krate, &tc, &outcome, None),
        Err(Error::NotFound)
    );
}

#[test]
fn put_twice_keeps_the_last_and_adds_no_row() {
    let mut db = store_with(&["e"]);
    let krate = Crate::Local("a".to_string());
    let tc = toolchain("stable");
    let first = EncodedLog::from_plain(b"first".to_vec());
    db.store_result("e", &krate, &tc, &TestResult::Error, Some(&first)).unwrap();
    db.store_result("e", &Crate::Local("b".to_string()), &tc, &TestResult::Skipped, None).unwrap();
    assert_eq!(db.get_result_count("e"), Ok(2));
    db.store_result("e", &krate, &tc, &TestResult::TestPass, None).unwrap();
    assert_eq!(db.get_result_count("e"), Ok(2));
    assert_eq!(db.get_result("e", &krate, &tc).unwrap(), Some((TestResult::TestPass, None)));
    db.store_result("e", &krate, &tc, &TestResult::TestPass, None).unwrap();
    assert_eq!(db.get_result_count("e"), Ok(2));
    assert_eq!(db.get_result("e", &krate, &tc).unwrap(), Some((TestResult::TestPass, None)));
    assert_eq!(
        db.get_result("e", &Crate::Local("b".to_string()), &tc).unwrap(),
        Some((TestResult::Skipped, None))
    );
    assert_eq!(db.get_result_count("none"), Ok(0));
    assert_eq!(db.delete_all_results("none"), Ok(()));
}

#[test]
fn progress_counts_runs_of_listed_packages() {
    let mut db = store_with(&["e"]);
    assert_eq!(db.get_experiment_progress("e"), Ok((0, 0)));
    assert_eq!(db.get_experiment_progress("none"), Err(Error::NotFound));
    let a = Crate::Local("a".to_string());
    let b = Crate::Local("b".to_string());
    let c = Crate::Local("c".to_string());
    assert_eq!(db.add_crate("e", &a, false), Ok(()));
    assert_eq!(db.add_crate("e", &b, false), Ok(()));
    assert_eq!(db.add_crate("e", &c, true), Ok(()));
    assert_eq!(db.add_crate("e", &a, true), Err(Error::AlreadyExists));
    assert_eq!(db.add_crate("none", &a, true), Err(Error::NotFound));
    assert_eq!(
        db.experiment_crates("e"),
        Ok(vec![
            ExperimentCrate { krate: "local:a".to_string(), skipped: false },
            ExperimentCrate { krate: "local:b".to_string(), skipped: false },
            ExperimentCrate { krate: "local:c".to_string(), skipped: true },
        ])
    );
    assert_eq!(db.experiment_crates("none"), Err(Error::NotFound));
    assert_eq!(db.get_experiment_progress("e"), Ok((0, 4)));
    let pass = TestResult::TestPass;
    db.store_result("e", &a, &toolchain("stable"), &pass, None).unwrap();
    assert_eq!(db.get_experiment_progress("e"), Ok((1, 4)));
    db.store_result("e", &a, &toolchain("beta"), &pass, None).unwrap();
    db.store_result("e", &b, &toolchain("beta"), &pass, None).unwrap();
    assert_eq!(db.get_experiment_progress("e"), Ok((3, 4)));
    // Results for a package that is left out, for a package that is not listed or for
    // another toolchain are no runs of the experiment.
    db.store_result("e", &c, &toolchain("stable"), &pass, None).unwrap();
    db.store_result("e", &Crate::Local("d".to_string()), &toolchain("stable"), &pass, None)
        .unwrap();
    db.store_result("e", &b, &toolchain("nightly"), &pass, None).unwrap();
    assert_eq!(db.get_experiment_progress("e"), Ok((3, 4)));
    assert_eq!(db.get_result_count("e"), Ok(6));
    db.store_result("e", &b, &toolchain("stable"), &pass, None).unwrap();
    assert_eq!(db.get_experiment_progress("e"), Ok((4, 4)));
    db.delete_all_results("e").unwrap();
    assert_eq!(db.get_experiment_progress("e"), Ok((0, 4)));
}

#[test]
fn what_belongs_to_an_experiment_goes_where_it_goes() {
    let mut db = store_with(&["e", "other"]);
    let a = Crate::Local("a".to_string());
    db.add_crate("e", &a, false).unwrap();
    db.store_result("e", &a, &toolchain("stable"), &TestResult::TestPass, None).unwrap();
    db.store_result("other", &a, &toolchain("stable"), &TestResult::Error, None).unwrap();
    db.edit("e", EditExperiment { name: Some("renamed".to_string()), ..Default::default() })
        .unwrap();
    assert_eq!(db.get_result_count("e"), Ok(0));
    assert_eq!(db.get_result_count("renamed"), Ok(1));
    assert_eq!(db.get_experiment_progress("renamed"), Ok((1, 2)));
    db.delete("renamed").unwrap();
    assert_eq!(db.get_result_count("renamed"), Ok(0));
    assert_eq!(db.get_result("renamed", &a, &toolchain("stable")).unwrap(), None);
    assert_eq!(db.get_result_count("other"), Ok(1));
    // A new experiment under the old name starts without results.
    let fresh = store_with(&["renamed"]);
    assert_eq!(fresh.get_result_count("renamed"), Ok(0));
}

#[test]
fn results_as_the_report_takes_them() {
    let mut db = store_with(&["e"]);
    let ex = db.get("e").unwrap().unwrap();
    let stable = toolchain("stable");
    let beta = toolchain("beta");
    let fail = TestResult::BuildFail(FailureReason::Unknown);
    let pass = TestResult::TestPass;
    let a = Crate::Registry(RegistryCrate::new("a", "1.0.0"));
    let b = Crate::Local("b".to_string());
    let c = Crate::GitHub(GitHubRepo::with_sha("org", "c", "abc"));
    let d = Crate::Local("d".to_string());
    db.add_crate("e", &a, false).unwrap();
    db.add_crate("e", &b, false).unwrap();
    db.add_crate("e", &c, true).unwrap();
    db.add_crate("e", &d, false).unwrap();
    db.store_result("e", &a, &stable, &pass, None).unwrap();
    db.store_result("e", &a, &beta, &fail, None).unwrap();
    db.store_result("e", &b, &stable, &fail, None).unwrap();
    db.store_result("e", &b, &beta, &pass, None).unwrap();
    db.store_result("e", &c, &stable, &pass, None).unwrap();
    db.store_result("e", &d, &beta, &pass, None).unwrap();

    let raw = db.load_all_results(&ex).unwrap();
    let seen: Vec<(String, Crate, Comparison)> =
        raw.crates.iter().map(|r| (r.name.clone(), r.krate.clone(), r.res)).collect();
    assert_eq!(
        seen,
        vec![
            ("a-1.0.0".to_string(), a.clone(), Comparison::Regressed),
            ("local:b".to_string(), b.clone(), Comparison::Fixed),
            ("local:d".to_string(), d.clone(), Comparison::Unknown),
        ]
    );
    assert_eq!(
        raw.crates[0].runs,
        [
            Some(RunResult { result: pass.clone(), log: String::new() }),
            Some(RunResult { result: fail.clone(), log: String::new() }),
        ]
    );
    assert_eq!(raw.crates[2].runs[0], None);
    let results = TestResults::from_raw(raw);
    assert_eq!(results.summary.total, 3);
    assert_eq!(results.summary.regressed, 1);
    assert_eq!(results.summary.fixed, 1);
    assert_eq!(results.summary.unknown, 1);

    let missing = Experiment { name: "none".to_string(), ..ex.clone() };
    assert_eq!(db.load_all_results(&missing).unwrap_err(), Error::NotFound);
    // A listed identifier that stands for no package cannot be reported on.
    db.add_crate_id("e", "what".to_string(), false).unwrap();
    assert_eq!(db.load_all_results(&ex).unwrap_err(), Error::Internal);
    // Through the store of results, seen by itself.
    let mut other = store_with(&["e"]);
    other.add_crate("e", &b, false).unwrap();
    let wrapped = DatabaseDB::new(other);
    let raw = ReadResults::load_all_results(&wrapped, &ex).unwrap();
    assert_eq!(raw.crates.len(), 1);
    assert_eq!(raw.crates[0].res, Comparison::Skipped);
}
