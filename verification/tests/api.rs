use crater_ohos::actions::experiments::CreateExperiment;
use crater_ohos::api::error::ApiError;
use crater_ohos::api::middleware::auth::{auth, authorize, bearer_token, require_permission, Operation};
use crater_ohos::api::routes::agents::{
    agent_heartbeat, get_agent, list_agents, register_agent, RegisterAgentRequest,
};
use crater_ohos::api::routes::experiments::{
    abort_experiment, create_experiment, delete_experiment, edit_experiment, get_experiment,
    list_experiments, run_experiment, CreateExperimentRequest, EditExperimentRequest,
};
use crater_ohos::api::routes::health::{config, health};
use crater_ohos::api::routes::ui;
use crater_ohos::cli::args::{Cli, Commands};
use crater_ohos::cli::commands::define::define_ex;
use crater_ohos::crates::Crate;
use crater_ohos::db::Database;
use crater_ohos::experiments::{CrateSelect, Mode, Status};
use crater_ohos::results::TestResult;
use crater_ohos::server::tokens::{ApiToken, Permission};
use crater_ohos::time::Timestamp;
use crater_ohos::toolchain::Toolchain;
use crater_ohos::Error;

fn at(secs: i64) -> Timestamp {
    Timestamp::new(secs, 0).unwrap()
}

fn create_request(name: &str) -> CreateExperimentRequest {
    CreateExperimentRequest {
        name: name.to_string(),
        toolchains: ["stable".to_string(), "beta".to_string()],
        mode: "build-and-test".to_string(),
        crate_select: "demo".to_string(),
        platform_issue: None,
        callback_url: None,
        priority: 0,
    }
}

fn no_edit() -> EditExperimentRequest {
    EditExperimentRequest {
        name: None,
        mode: None,
        crate_select: None,
        platform_issue: None,
        callback_url: None,
        priority: None,
    }
}

#[test]
fn test_api_module_exists() {
    assert_eq!(health().status, "ok");
    assert_eq!(health().version, config().version);
}

#[test]
fn test_cli_module_exists() {
    let cli = Cli { command: Commands::ListEx };
    assert!(cli.command.needs_store());
    assert!(!Commands::PrepareLocal.needs_store());
    assert!(!Commands::Server { port: 3000, config: "config.toml".to_string() }.needs_store());
    assert!(Commands::DeleteEx { name: "e".to_string() }.needs_store());
}

#[test]
fn errors_as_callers_see_them() {
    let cases = [
        (Error::NotFound, 404, "NOT_FOUND"),
        (Error::AlreadyExists, 409, "CONFLICT"),
        (Error::InvalidState, 400, "BAD_REQUEST"),
        (Error::BadRequest, 400, "BAD_REQUEST"),
        (Error::Unauthorized, 401, "UNAUTHORIZED"),
        (Error::Forbidden, 403, "FORBIDDEN"),
        (Error::Internal, 500, "INTERNAL_SERVER_ERROR"),
    ];
    for (kind, status, code) in cases {
        let e = ApiError::from_error(kind);
        assert_eq!(e.status(), status);
        assert_eq!(e.code(), code);
        assert_eq!(e.message(), kind.describe());
        assert_eq!(ApiError::of(kind, "m".to_string()).message(), "m");
    }
    assert_eq!(Error::NotFound.code(), "NOT_FOUND");
    assert_eq!(Error::AlreadyExists.code(), "ALREADY_EXISTS");
    assert_eq!(Error::InvalidState.code(), "INVALID_STATE");
    assert_eq!(Error::BadRequest.code(), "BAD_REQUEST");
    assert_eq!(Error::Unauthorized.code(), "UNAUTHORIZED");
    assert_eq!(Error::Forbidden.code(), "FORBIDDEN");
    assert_eq!(Error::Internal.code(), "INTERNAL");
}

#[test]
fn experiment_requests() {
    let mut db = Database::temp().unwrap();
    let created = create_experiment(&mut db, create_request("e"), at(1)).unwrap().experiment;
    assert_eq!(created.name, "e");
    assert_eq!(created.status, Status::Queued);
    assert_eq!(created.mode, Mode::BuildAndTest);
    assert_eq!(created.toolchains[1], Toolchain::from_str("beta").unwrap());
    assert_eq!(db.get_crate_select("e").unwrap(), Some(CrateSelect::Demo));

    assert_eq!(
        create_experiment(&mut db, create_request("e"), at(2)).unwrap_err(),
        ApiError::Conflict("already exists".to_string())
    );
    for bad in [
        CreateExperimentRequest { mode: "fast".to_string(), ..create_request("x") },
        CreateExperimentRequest { crate_select: "top-".to_string(), ..create_request("x") },
        CreateExperimentRequest {
            toolchains: ["stable".to_string(), "what#1".to_string()],
            ..create_request("x")
        },
        create_request(""),
    ] {
        assert_eq!(
            create_experiment(&mut db, bad, at(2)).unwrap_err(),
            ApiError::BadRequest("invalid request".to_string())
        );
    }
    assert_eq!(list_experiments(&db).unwrap().experiments.len(), 1);
    assert_eq!(get_experiment(&db, "e").unwrap().experiment, created);
    assert_eq!(
        get_experiment(&db, "x").unwrap_err(),
        ApiError::NotFound("Experiment 'x' not found".to_string())
    );

    let edited = edit_experiment(
        &mut db,
        "e",
        EditExperimentRequest {
            mode: Some("check-only".to_string()),
            crate_select: Some("random-5".to_string()),
            priority: Some(7),
            ..no_edit()
        },
    )
    .unwrap()
    .experiment;
    assert_eq!(edited.mode, Mode::CheckOnly);
    assert_eq!(edited.priority, 7);
    assert_eq!(db.get_crate_select("e").unwrap(), Some(CrateSelect::Random(5)));
    assert_eq!(
        edit_experiment(&mut db, "e", EditExperimentRequest { mode: Some("x".to_string()), ..no_edit() })
            .unwrap_err()
            .status(),
        400
    );
    assert_eq!(edit_experiment(&mut db, "x", no_edit()).unwrap_err().status(), 404);

    assert_eq!(abort_experiment(&mut db, "e", at(3)).unwrap_err().status(), 400);
    assert_eq!(run_experiment(&mut db, "x", at(3)).unwrap_err().status(), 404);
    assert_eq!(run_experiment(&mut db, "e", at(3)), Ok(()));
    assert_eq!(run_experiment(&mut db, "e", at(3)).unwrap_err().status(), 400);
    assert_eq!(edit_experiment(&mut db, "e", no_edit()).unwrap_err().status(), 400);
    assert_eq!(delete_experiment(&mut db, "e").unwrap_err().status(), 400);
    assert_eq!(delete_experiment(&mut db, "x").unwrap_err().status(), 404);
    assert_eq!(abort_experiment(&mut db, "e", at(4)), Ok(()));
    assert_eq!(db.get("e").unwrap().unwrap().status, Status::ReportFailed);

    create_experiment(&mut db, create_request("f"), at(5)).unwrap();
    assert_eq!(delete_experiment(&mut db, "f"), Ok(()));
    assert_eq!(list_experiments(&db).unwrap().experiments.len(), 1);
}

#[test]
fn agent_requests() {
    let mut db = Database::temp().unwrap();
    let agent = register_agent(
        &mut db,
        RegisterAgentRequest { name: "w".to_string(), capabilities: vec!["build".to_string()] },
    )
    .unwrap()
    .agent;
    assert_eq!(agent.name, "w");
    assert_eq!(agent_heartbeat(&mut db, &agent.id, at(9_000_000_000)), Ok(()));
    assert_eq!(
        agent_heartbeat(&mut db, "nobody", at(1)).unwrap_err(),
        ApiError::NotFound("Agent 'nobody' not found".to_string())
    );
    assert_eq!(list_agents(&db).unwrap().agents.len(), 1);
    assert_eq!(get_agent(&db, &agent.id).unwrap().agent.last_heartbeat, at(9_000_000_000));
    assert_eq!(get_agent(&db, "nobody").unwrap_err().status(), 404);
}

#[test]
fn callers_are_let_through_by_token_and_permission() {
    let mut db = Database::temp().unwrap();
    let make = |text: &str, permissions: Vec<Permission>, expires_at| ApiToken {
        token: text.to_string(),
        name: "n".to_string(),
        permissions,
        created_at: at(0),
        expires_at,
    };
    db.create_token_as(make("crt_reader", vec![Permission::ReadExperiments], None)).unwrap();
    db.create_token_as(make("crt_admin", vec![Permission::Admin], None)).unwrap();
    db.create_token_as(make("crt_old", vec![Permission::Admin], Some(at(10)))).unwrap();

    assert_eq!(bearer_token(Some("Bearer abc")), Some("abc".to_string()));
    assert_eq!(bearer_token(Some("Bearer ")), Some(String::new()));
    assert_eq!(bearer_token(Some("bearer abc")), None);
    assert_eq!(bearer_token(Some("Bearerabc")), None);
    assert_eq!(bearer_token(Some("Basic abc")), None);
    assert_eq!(bearer_token(None), None);

    assert_eq!(auth(&db, None, at(5)), Err(Error::Unauthorized));
    assert_eq!(auth(&db, Some("crt_reader"), at(5)), Err(Error::Unauthorized));
    assert_eq!(auth(&db, Some("Bearer crt_nobody"), at(5)), Err(Error::Unauthorized));
    assert_eq!(auth(&db, Some("Bearer crt_old"), at(11)), Err(Error::Unauthorized));
    assert_eq!(auth(&db, Some("Bearer crt_old"), at(5)).unwrap().token, "crt_old");
    let reader = auth(&db, Some("Bearer crt_reader"), at(5)).unwrap();
    assert_eq!(require_permission(&reader, Permission::ReadExperiments), Ok(()));
    assert_eq!(require_permission(&reader, Permission::WriteExperiments), Err(Error::Forbidden));

    let all = [
        (Operation::CreateExperiment, Permission::WriteExperiments),
        (Operation::EditExperiment, Permission::WriteExperiments),
        (Operation::DeleteExperiment, Permission::WriteExperiments),
        (Operation::RunExperiment, Permission::WriteExperiments),
        (Operation::AbortExperiment, Permission::WriteExperiments),
        (Operation::ListExperiments, Permission::ReadExperiments),
        (Operation::GetExperiment, Permission::ReadExperiments),
        (Operation::GetProgress, Permission::ReadExperiments),
        (Operation::RegisterAgent, Permission::ManageAgents),
        (Operation::AgentHeartbeat, Permission::ManageAgents),
        (Operation::ListAgents, Permission::ManageAgents),
        (Operation::GetAgent, Permission::ManageAgents),
    ];
    for (operation, permission) in all {
        assert_eq!(operation.required_permission(), permission);
        assert!(authorize(&db, Some("Bearer crt_admin"), operation, at(5)).is_ok());
        assert_eq!(
            authorize(&db, Some("Bearer crt_reader"), operation, at(5)).map(|t| t.token),
            if permission == Permission::ReadExperiments {
                Ok("crt_reader".to_string())
            } else {
                Err(Error::Forbidden)
            }
        );
        assert_eq!(authorize(&db, Some("Bearer x"), operation, at(5)), Err(Error::Unauthorized));
        assert_eq!(
            authorize(&db, Some("Bearer crt_old"), operation, at(50)),
            Err(Error::Unauthorized)
        );
    }
}

#[test]
fn definitions_on_the_command_line() {
    let mut db = Database::temp().unwrap();
    let e = define_ex(
        &mut db,
        "e".to_string(),
        "stable".to_string(),
        "master#abc".to_string(),
        "top-10".to_string(),
        "clippy".to_string(),
        3,
        at(1),
    )
    .unwrap();
    assert_eq!(e.mode, Mode::Clippy);
    assert_eq!(e.priority, 3);
    assert_eq!(e.toolchains[1].to_string(), "master#abc");
    assert_eq!(db.get_crate_select("e").unwrap(), Some(CrateSelect::Top(10)));
    let again = |db: &mut Database, tc: &str, select: &str, mode: &str| {
        define_ex(
            db,
            "f".to_string(),
            tc.to_string(),
            "beta".to_string(),
            select.to_string(),
            mode.to_string(),
            0,
            at(2),
        )
    };
    assert_eq!(again(&mut db, "nope#1", "demo", "fix"), Err(Error::BadRequest));
    assert_eq!(again(&mut db, "stable", "some", "fix"), Err(Error::BadRequest));
    assert_eq!(again(&mut db, "stable", "demo", "Fix"), Err(Error::BadRequest));
    assert!(db.get("f").unwrap().is_none());
    assert!(again(&mut db, "stable", "demo", "fix").is_ok());
    assert_eq!(again(&mut db, "stable", "demo", "fix"), Err(Error::AlreadyExists));
}

#[test]
fn pages_show_progress_and_estimates() {
    let mut db = Database::temp().unwrap();
    let stable = Toolchain::from_str("stable").unwrap();
    let beta = Toolchain::from_str("beta").unwrap();
    db.create_at(
        CreateExperiment {
            name: "e".to_string(),
            toolchains: [stable.clone(), beta.clone()],
            mode: Mode::BuildOnly,
            crate_select: CrateSelect::Demo,
            platform_issue: None,
            callback_url: None,
            priority: 2,
        },
        at(100),
    )
    .unwrap();
    let empty = ui::get_progress(&db, "e").unwrap();
    assert_eq!((empty.completed, empty.total, empty.percentage), (0, 0, 0));
    for name in ["a", "b"] {
        db.add_crate("e", &Crate::Local(name.to_string()), false).unwrap();
    }
    db.run_at("e", at(200)).unwrap();
    db.assign("e", "agent-7").unwrap();
    db.store_result("e", &Crate::Local("a".to_string()), &stable, &TestResult::TestPass, None)
        .unwrap();
    let p = ui::get_progress(&db, "e").unwrap();
    assert_eq!((p.completed, p.total, p.percentage), (1, 4, 25));
    assert_eq!(ui::get_progress(&db, "x").unwrap_err().status(), 404);

    let detail = ui::get_experiment(&db, "e", at(290)).unwrap();
    assert_eq!(detail.experiment.name, "e");
    assert_eq!(detail.progress, p);
    assert_eq!(detail.duration_seconds, None);
    assert_eq!(detail.average_task_seconds, Some(90));
    assert_eq!(detail.estimated_remaining_seconds, Some(270));
    assert_eq!(ui::get_experiment(&db, "x", at(290)).unwrap_err().status(), 404);

    let list = ui::list_experiments(&db).unwrap().experiments;
    assert_eq!(
        list,
        vec![ui::ExperimentListItem {
            name: "e".to_string(),
            assigned_to: Some("agent-7".to_string()),
            requirement: None,
            mode: "build-only".to_string(),
            priority: 2,
            status: "running".to_string(),
            progress_percentage: 25,
        }]
    );
    db.complete_at("e", at(300)).unwrap();
    let done = ui::get_experiment(&db, "e", at(400)).unwrap();
    assert_eq!(done.duration_seconds, Some(100));
}
