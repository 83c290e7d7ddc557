use crater_ohos::db::migrations::{execute, names, plan};
use crater_ohos::db::Database;
use crater_ohos::experiments::{
    Assignee, CapLints, Experiment, ExperimentDBRecord, Mode, PlatformIssue, Status,
};
use crater_ohos::report::analyzer::Summary;
use crater_ohos::report::{gen, TestResults};
use crater_ohos::server::agents::{Agent, AgentDBRecord, AgentStatus};
use crater_ohos::server::tokens::{ApiToken, ApiTokenDBRecord, Permission};
use crater_ohos::time::Timestamp;
use crater_ohos::toolchain::{RustwideToolchain, Toolchain};
use crater_ohos::Error;

fn record() -> ExperimentDBRecord {
    ExperimentDBRecord {
        name: "e".to_string(),
        mode: "build-only".to_string(),
        cap_lints: "forbid".to_string(),
        toolchain_start: Some("stable".to_string()),
        toolchain_end: Some("ci-alt#abc".to_string()),
        priority: -2,
        created_at: "2024-01-01T00:00:00+00:00".to_string(),
        started_at: Some("2024-01-01T00:00:01.5+00:00".to_string()),
        completed_at: None,
        platform_issue: Some("gitcode".to_string()),
        platform_issue_url: Some("https://gitcode.com/a/b/-/issues/1".to_string()),
        platform_issue_identifier: Some("1".to_string()),
        status: "running".to_string(),
        assigned_to: Some("agent-1".to_string()),
        report_url: None,
        ignore_blacklist: true,
        requirement: Some("linux".to_string()),
    }
}

#[test]
fn rows_of_experiments_parse() {
    let e = Database::parse_experiment(&record()).unwrap();
    assert_eq!(
        e,
        Experiment {
            name: "e".to_string(),
            toolchains: [
                Toolchain::from_str("stable").unwrap(),
                Toolchain::plain(RustwideToolchain::CI { sha: "abc".to_string(), alt: true }),
            ],
            mode: Mode::BuildOnly,
            cap_lints: CapLints::Forbid,
            priority: -2,
            created_at: Timestamp::new(1_704_067_200, 0).unwrap(),
            started_at: Some(Timestamp::new(1_704_067_201, 500_000_000).unwrap()),
            completed_at: None,
            platform_issue: Some(PlatformIssue {
                platform: "gitcode".to_string(),
                api_url: "https://gitcode.com/a/b/-/issues/1".to_string(),
                html_url: "https://gitcode.com/a/b/-/issues/1".to_string(),
                identifier: "1".to_string(),
            }),
            status: Status::Running,
            assigned_to: Some(Assignee::Agent("agent-1".to_string())),
            report_url: None,
            ignore_blacklist: true,
            requirement: Some("linux".to_string()),
        }
    );
    // What was read is written back as it was, but for the form of the times.
    let back = e.to_record().unwrap();
    assert_eq!(
        back,
        ExperimentDBRecord {
            started_at: Some("2024-01-01T00:00:01.500+00:00".to_string()),
            ..record()
        }
    );
    assert_eq!(Database::parse_experiment(&back), Ok(e));
}

#[test]
fn rows_of_experiments_with_gaps_and_faults() {
    // Without both toolchains, the two are stable and beta.
    let e = Database::parse_experiment(&ExperimentDBRecord { toolchain_end: None, ..record() })
        .unwrap();
    assert_eq!(e.toolchains[0].to_string(), "stable");
    assert_eq!(e.toolchains[1].to_string(), "beta");
    // Without one part of the issue there is no issue.
    for r in [
        ExperimentDBRecord { platform_issue: None, ..record() },
        ExperimentDBRecord { platform_issue_url: None, ..record() },
        ExperimentDBRecord { platform_issue_identifier: None, ..record() },
    ] {
        assert_eq!(Database::parse_experiment(&r).unwrap().platform_issue, None);
    }
    assert_eq!(
        Database::parse_experiment(&ExperimentDBRecord {
            assigned_to: Some("cli".to_string()),
            ..record()
        })
        .unwrap()
        .assigned_to,
        Some(Assignee::CLI)
    );
    for bad in [
        ExperimentDBRecord { mode: "x".to_string(), ..record() },
        ExperimentDBRecord { cap_lints: "x".to_string(), ..record() },
        ExperimentDBRecord { status: "x".to_string(), ..record() },
        ExperimentDBRecord { created_at: "2024-01-01 00:00:00".to_string(), ..record() },
        ExperimentDBRecord { started_at: Some("soon".to_string()), ..record() },
        ExperimentDBRecord { completed_at: Some(String::new()), ..record() },
        ExperimentDBRecord { toolchain_start: Some("x#1".to_string()), ..record() },
        ExperimentDBRecord { toolchain_end: Some("x#1".to_string()), ..record() },
    ] {
        assert_eq!(Database::parse_experiment(&bad), Err(Error::Internal), "{:?}", bad);
    }
}

#[test]
fn rows_of_workers() {
    let agent = Agent {
        id: "agent-1".to_string(),
        name: "w \"1\"".to_string(),
        capabilities: vec!["build".to_string(), "te,st".to_string()],
        last_heartbeat: Timestamp::new(1_704_067_200, 0).unwrap(),
        current_experiment: Some("e".to_string()),
        status: AgentStatus::Busy,
    };
    let row = agent.to_record().unwrap();
    assert_eq!(
        row,
        AgentDBRecord {
            id: "agent-1".to_string(),
            name: "w \"1\"".to_string(),
            capabilities: "[\"build\",\"te,st\"]".to_string(),
            last_heartbeat: "2024-01-01T00:00:00+00:00".to_string(),
            current_experiment: Some("e".to_string()),
            status: "busy".to_string(),
        }
    );
    assert_eq!(Agent::from_record(&row), Ok(agent.clone()));
    // A status that names none stands for a worker that is not heard from.
    let odd = AgentDBRecord { status: "asleep".to_string(), ..agent.to_record().unwrap() };
    assert_eq!(Agent::from_record(&odd).unwrap().status, AgentStatus::Offline);
    let bad = AgentDBRecord { capabilities: "build".to_string(), ..agent.to_record().unwrap() };
    assert_eq!(Agent::from_record(&bad), Err(Error::Internal));
    let bad = AgentDBRecord { last_heartbeat: "now".to_string(), ..agent.to_record().unwrap() };
    assert_eq!(Agent::from_record(&bad), Err(Error::Internal));
    // The capabilities are read in every form of JSON, with white space
    // between the parts and characters written by their numbers.
    let spaced = AgentDBRecord {
        capabilities: " [ \"bu\\u0069ld\" ,\n\t\"te,st\" ] ".to_string(),
        ..agent.to_record().unwrap()
    };
    assert_eq!(Agent::from_record(&spaced), Ok(agent.clone()));
    let odd = Agent { capabilities: vec!["tab\there \u{e9}".to_string()], ..agent.clone() };
    let row = odd.to_record().unwrap();
    assert_eq!(row.capabilities, "[\"tab\\there \u{e9}\"]");
    assert_eq!(Agent::from_record(&row), Ok(odd));
}

#[test]
fn rows_of_tokens() {
    let token = ApiToken {
        token: "crt_00".to_string(),
        name: "ci".to_string(),
        permissions: vec![Permission::ReadExperiments, Permission::Admin],
        created_at: Timestamp::new(1_704_067_200, 0).unwrap(),
        expires_at: Some(Timestamp::new(1_704_067_260, 0).unwrap()),
    };
    let row = token.to_record().unwrap();
    assert_eq!(
        row,
        ApiTokenDBRecord {
            token: "crt_00".to_string(),
            name: "ci".to_string(),
            permissions: "[\"read_experiments\",\"admin\"]".to_string(),
            created_at: "2024-01-01T00:00:00+00:00".to_string(),
            expires_at: Some("2024-01-01T00:01:00+00:00".to_string()),
        }
    );
    assert_eq!(ApiToken::from_record(&row), Ok(token.clone()));
    for bad in [
        ApiTokenDBRecord { permissions: "[\"root\"]".to_string(), ..token.to_record().unwrap() },
        ApiTokenDBRecord { permissions: "admin".to_string(), ..token.to_record().unwrap() },
        ApiTokenDBRecord { created_at: "x".to_string(), ..token.to_record().unwrap() },
        ApiTokenDBRecord { expires_at: Some("x".to_string()), ..token.to_record().unwrap() },
    ] {
        assert_eq!(ApiToken::from_record(&bad), Err(Error::Internal));
    }
    let open = ApiTokenDBRecord {
        permissions: "[]".to_string(),
        expires_at: None,
        ..token.to_record().unwrap()
    };
    let parsed = ApiToken::from_record(&open).unwrap();
    assert!(parsed.permissions.is_empty());
    assert_eq!(parsed.expires_at, None);
}

#[test]
fn layout_steps_are_applied_once() {
    let all = names();
    assert_eq!(all.len(), 11);
    assert_eq!(all[0], "create_experiments_table");
    assert_eq!(all[5], "create_experiment_metadata_table");
    let mut unique = all.clone();
    unique.sort();
    unique.dedup();
    assert_eq!(unique.len(), all.len());

    assert_eq!(plan(&vec![]), all);
    let some = vec!["create_shas_table".to_string(), "something_else".to_string(), all[0].to_string()];
    let rest = plan(&some);
    assert_eq!(rest.len(), 9);
    assert_eq!(rest[0], "create_results_table");
    assert!(!rest.contains(&"create_shas_table"));

    let mut db = Database::new();
    assert!(db.applied_migrations().is_empty());
    assert_eq!(execute(&mut db), Ok(()));
    assert_eq!(db.applied_migrations(), all);
    assert!(plan(&db.applied_migrations()).is_empty());
    assert_eq!(execute(&mut db), Ok(()));
    assert_eq!(db.applied_migrations(), all);
    assert_eq!(Database::temp().unwrap().applied_migrations(), all);
}

#[test]
fn report_files() {
    let results = TestResults {
        categories: crater_ohos::report::analyzer::Categories::new(),
        summary: Summary {
            total: 2,
            regressed: 1,
            fixed: 1,
            broken: 0,
            same_build_fail: 0,
            same_test_fail: 0,
            same_test_pass: 0,
            same_test_skipped: 0,
            skipped: 0,
            unknown: 0,
            errors: 0,
            prepare_fail: 0,
            spurious_regressed: 0,
            spurious_fixed: 0,
        },
    };
    let ex = Database::parse_experiment(&record()).unwrap();
    let config = crater_ohos::config::Config {
        demo_crates: Default::default(),
        sandbox: crater_ohos::config::SandboxConfig {
            memory_limit: crater_ohos::utils::size::Size::Gigabytes(1),
            build_log_max_size: crater_ohos::utils::size::Size::Megabytes(10),
            build_log_max_lines: 1000,
        },
        server: crater_ohos::config::ServerConfig {
            acl: crater_ohos::config::ACL { allowed_users: vec![] },
            callback: Default::default(),
        },
        platforms: Default::default(),
    };
    let files = gen(&ex, &results, &config).unwrap();
    let paths: Vec<&str> = files.iter().map(|f| f.path.as_str()).collect();
    assert_eq!(paths, vec!["index.html", "report.md", "summary.json"]);
    assert!(files[0].content.starts_with("<!DOCTYPE html>\n<html>"));
    assert!(files[0].content.contains("<p>Regressions: 1</p>"));
    assert!(files[1].content.starts_with("# Crater Experiment Report\n"));
    assert_eq!(
        files[2].content,
        "{\n  \"total\": 2,\n  \"regressed\": 1,\n  \"fixed\": 1,\n  \"broken\": 0,\n  \"same_build_fail\": 0,\n  \"same_test_fail\": 0,\n  \"same_test_pass\": 0,\n  \"same_test_skipped\": 0,\n  \"skipped\": 0,\n  \"unknown\": 0,\n  \"errors\": 0,\n  \"prepare_fail\": 0,\n  \"spurious_regressed\": 0,\n  \"spurious_fixed\": 0\n}"
    );
    let parsed: serde_json::Value = serde_json::from_str(&files[2].content).unwrap();
    assert_eq!(parsed["regressed"], 1);
    assert_eq!(parsed["errors"], 0);
    assert_eq!(crater_ohos::report::archives::create_archive("a", "b"), Ok(()));
    assert_eq!(crater_ohos::report::archives::extract_archive("a", "b"), Ok(()));
}

#[test]
fn next_queued_follows_priority_age_and_name() {
    let mut db = Database::temp().unwrap();
    assert_eq!(db.next_queued(), Ok(None));
    let make = |name: &str, priority: i32| crater_ohos::actions::experiments::CreateExperiment {
        name: name.to_string(),
        toolchains: [Toolchain::from_str("stable").unwrap(), Toolchain::from_str("beta").unwrap()],
        mode: Mode::BuildAndTest,
        crate_select: crater_ohos::experiments::CrateSelect::Demo,
        platform_issue: None,
        callback_url: None,
        priority,
    };
    let at = |s: i64| Timestamp::new(s, 0).unwrap();
    db.create_at(make("low-old", 0), at(1)).unwrap();
    assert_eq!(db.next_queued().unwrap().unwrap().name, "low-old");
    db.create_at(make("high-new", 5), at(30)).unwrap();
    db.create_at(make("high-old-b", 5), at(20)).unwrap();
    db.create_at(make("high-old-a", 5), at(20)).unwrap();
    db.create_at(make("high-old-ab", 5), at(20)).unwrap();
    db.create_at(make("urgent", 9), at(40)).unwrap();
    let mut order = vec![];
    while let Some(next) = db.next_queued().unwrap() {
        order.push(next.name.clone());
        db.run_at(&next.name, at(50)).unwrap();
    }
    assert_eq!(
        order,
        vec!["urgent", "high-old-a", "high-old-ab", "high-old-b", "high-new", "low-old"]
    );
    assert_eq!(db.next_queued(), Ok(None));
}
