use crater_ohos::actions::experiments::CreateExperiment;
use crater_ohos::db::Database;
use crater_ohos::experiments::{CrateSelect, Mode};
use crater_ohos::server::agents::{Agent, AgentManager, AgentStatus, RegisterAgent};
use crater_ohos::server::ident::agent_id_from_bytes;
use crater_ohos::time::Timestamp;
use crater_ohos::toolchain::Toolchain;
use crater_ohos::Error;
use std::str::FromStr;

fn at(secs: i64, nanos: u32) -> Timestamp {
    Timestamp::new(secs, nanos).unwrap()
}

fn nanos_between(from: &Timestamp, to: &Timestamp) -> i128 {
    (i128::from(to.secs()) - i128::from(from.secs())) * 1_000_000_000
        + (i128::from(to.nanos()) - i128::from(from.nanos()))
}

fn worker(name: &str) -> RegisterAgent {
    RegisterAgent {
        name: name.to_string(),
        capabilities: vec!["build".to_string(), "test".to_string()],
    }
}

#[test]
fn test_agent_lifecycle() {
    let mut db = Database::temp().unwrap();

    let req = RegisterAgent {
        name: "test-agent".to_string(),
        capabilities: vec!["build".to_string(), "test".to_string()],
    };
    let agent = db.register_agent(req).unwrap();
    assert_eq!(agent.name, "test-agent");
    assert_eq!(agent.status, AgentStatus::Idle);
    assert_eq!(agent.capabilities.len(), 2);

    // Waits until the clock has moved on by ten milliseconds.
    while nanos_between(&agent.last_heartbeat, &Timestamp::now().unwrap()) < 10_000_000 {}
    let result = db.heartbeat(&agent.id);
    assert!(result.is_ok());

    let retrieved = db.get_agent(&agent.id).unwrap();
    assert!(retrieved.is_some());
    let retrieved = retrieved.unwrap();
    assert_eq!(retrieved.id, agent.id);
    assert!(retrieved.last_heartbeat.is_after(&agent.last_heartbeat));

    let agents = db.list_agents().unwrap();
    assert_eq!(agents.len(), 1);
}

#[test]
fn agents_test_agent_task_assignment() {
    let mut db = Database::temp().unwrap();

    let exp_req = CreateExperiment {
        name: "test-exp".to_string(),
        toolchains: [
            Toolchain::from_str("stable").unwrap(),
            Toolchain::from_str("beta").unwrap(),
        ],
        mode: Mode::BuildAndTest,
        crate_select: CrateSelect::Demo,
        platform_issue: None,
        callback_url: None,
        priority: 0,
    };
    db.create(exp_req).unwrap();

    let req = RegisterAgent {
        name: "test-agent".to_string(),
        capabilities: vec!["build".to_string()],
    };
    let agent = db.register_agent(req).unwrap();

    let result = db.assign_task(&agent.id, "test-exp");
    assert!(result.is_ok());

    let agent = db.get_agent(&agent.id).unwrap().unwrap();
    assert_eq!(agent.status, AgentStatus::Busy);
    assert_eq!(agent.current_experiment, Some("test-exp".to_string()));

    db.complete_task(&agent.id).unwrap();

    let agent = db.get_agent(&agent.id).unwrap().unwrap();
    assert_eq!(agent.status, AgentStatus::Idle);
    assert_eq!(agent.current_experiment, None);
}

#[test]
fn service_integration_test_agent_task_assignment() {
    let mut db = Database::temp().unwrap();

    let agent_req = RegisterAgent {
        name: "integration-agent".to_string(),
        capabilities: vec!["build".to_string(), "test".to_string()],
    };
    let agent = db.register_agent(agent_req).unwrap();
    assert_eq!(agent.name, "integration-agent");
    assert_eq!(agent.capabilities.len(), 2);

    let exp_req = CreateExperiment {
        name: "agent-test-exp".to_string(),
        toolchains: [
            Toolchain::from_str("stable").unwrap(),
            Toolchain::from_str("beta").unwrap(),
        ],
        mode: Mode::BuildAndTest,
        crate_select: CrateSelect::Demo,
        platform_issue: None,
        callback_url: None,
        priority: 0,
    };
    db.create(exp_req).unwrap();

    db.assign_task(&agent.id, "agent-test-exp").unwrap();
    let updated_agent = db.get_agent(&agent.id).unwrap().unwrap();
    assert_eq!(
        updated_agent.current_experiment,
        Some("agent-test-exp".to_string())
    );

    db.heartbeat(&agent.id).unwrap();

    db.complete_task(&agent.id).unwrap();
    let updated_agent = db.get_agent(&agent.id).unwrap().unwrap();
    assert_eq!(updated_agent.current_experiment, None);
}

#[test]
fn test_cleanup_offline_agents() {
    let mut db = Database::temp().unwrap();

    let req = RegisterAgent {
        name: "test-agent".to_string(),
        capabilities: vec!["build".to_string()],
    };
    let agent = db.register_agent(req).unwrap();

    // With no time allowed, the worker is swept as soon as the clock has
    // moved on from its last sign of life.
    while !Timestamp::now().unwrap().is_after(&agent.last_heartbeat) {}
    let deleted = db.cleanup_offline_agents(0).unwrap();
    assert_eq!(deleted, 1);

    let agents = db.list_agents().unwrap();
    assert_eq!(agents.len(), 0);
}

#[test]
fn test_agent_registration_for_api() {
    let mut db = Database::temp().unwrap();
    let agent = db
        .register_agent(RegisterAgent {
            name: "test-api-agent".to_string(),
            capabilities: vec!["build".to_string(), "test".to_string()],
        })
        .unwrap();
    assert!(agent.id.starts_with("agent-"));
    assert_eq!(agent.name, "test-api-agent");
    let agents = db.list_agents().unwrap();
    assert_eq!(agents.len(), 1);
    let retrieved = db.get_agent(&agent.id).unwrap();
    assert!(retrieved.is_some());
}

#[test]
fn scenario_worker_lifecycle() {
    let mut db = Database::temp().unwrap();
    let w = db.register_agent_as(worker("w"), "agent-1".to_string(), at(1, 0)).unwrap();
    assert_eq!(
        w,
        Agent {
            id: "agent-1".to_string(),
            name: "w".to_string(),
            capabilities: vec!["build".to_string(), "test".to_string()],
            last_heartbeat: at(1, 0),
            current_experiment: None,
            status: AgentStatus::Idle,
        }
    );
    assert_eq!(db.heartbeat_at("agent-1", at(2, 0)), Ok(()));
    let seen = db.get_agent("agent-1").unwrap().unwrap();
    assert_eq!(seen.last_heartbeat, at(2, 0));
    assert_eq!(seen.status, AgentStatus::Idle);

    assert_eq!(db.assign_task("agent-1", "exp3"), Ok(()));
    let busy = db.get_agent("agent-1").unwrap().unwrap();
    assert_eq!(busy.status, AgentStatus::Busy);
    assert_eq!(busy.current_experiment, Some("exp3".to_string()));
    assert_eq!(db.assign_task("agent-1", "exp3"), Err(Error::InvalidState));
    // A sign of life changes the time and nothing else.
    assert_eq!(db.heartbeat_at("agent-1", at(3, 0)), Ok(()));
    let still = db.get_agent("agent-1").unwrap().unwrap();
    assert_eq!(still.status, AgentStatus::Busy);
    assert_eq!(still.current_experiment, Some("exp3".to_string()));

    assert_eq!(db.complete_task("agent-1"), Ok(()));
    let idle = db.get_agent("agent-1").unwrap().unwrap();
    assert_eq!(idle.status, AgentStatus::Idle);
    assert_eq!(idle.current_experiment, None);

    assert_eq!(db.heartbeat_at("agent-2", at(3, 0)), Err(Error::NotFound));
    assert_eq!(db.assign_task("agent-2", "exp3"), Err(Error::NotFound));
    assert_eq!(db.complete_task("agent-2"), Err(Error::NotFound));
    assert_eq!(db.get_agent("agent-2").unwrap(), None);
    assert_eq!(
        db.register_agent_as(worker("other"), "agent-1".to_string(), at(9, 0)),
        Err(Error::AlreadyExists)
    );
}

#[test]
fn scenario_sweep() {
    let mut db = Database::temp().unwrap();
    db.register_agent(worker("w")).unwrap();
    assert_eq!(db.cleanup_offline_agents(0), Ok(1));
    assert!(db.list_agents().unwrap().is_empty());
}

#[test]
fn sweep_removes_exactly_the_silent_ones() {
    let mut db = Database::temp().unwrap();
    db.register_agent_as(worker("a"), "a".to_string(), at(100, 0)).unwrap();
    db.register_agent_as(worker("b"), "b".to_string(), at(110, 0)).unwrap();
    db.register_agent_as(worker("c"), "c".to_string(), at(109, 999_999_999)).unwrap();
    db.register_agent_as(worker("d"), "d".to_string(), at(130, 0)).unwrap();
    // At 120 with 10 seconds allowed: a (20 s) and c (a nanosecond too long) leave,
    // b (exactly 10 s) and d (from the future) stay.
    assert_eq!(db.cleanup_offline_agents_at(10, at(120, 0)), Ok(2));
    let left: Vec<String> = db.list_agents().unwrap().into_iter().map(|a| a.id).collect();
    assert_eq!(left, vec!["b", "d"]);
    assert_eq!(db.cleanup_offline_agents_at(10, at(120, 0)), Ok(0));
    // With less than no time allowed, only a worker heard from far enough in the
    // future stays.
    assert_eq!(db.cleanup_offline_agents_at(-10, at(120, 0)), Ok(1));
    let left: Vec<String> = db.list_agents().unwrap().into_iter().map(|a| a.id).collect();
    assert_eq!(left, vec!["d"]);
    assert_eq!(db.cleanup_offline_agents_at(i64::MIN, at(120, 0)), Ok(1));
    assert!(db.list_agents().unwrap().is_empty());
}

#[test]
fn restore_agent_checks() {
    let mut db = Database::temp().unwrap();
    let busy = Agent {
        id: "a".to_string(),
        name: "n".to_string(),
        capabilities: vec![],
        last_heartbeat: at(1, 0),
        current_experiment: Some("e".to_string()),
        status: AgentStatus::Busy,
    };
    assert_eq!(db.restore_agent(busy.clone()), Ok(()));
    assert_eq!(db.restore_agent(busy.clone()), Err(Error::AlreadyExists));
    assert_eq!(
        db.restore_agent(Agent { id: "b".to_string(), status: AgentStatus::Idle, ..busy.clone() }),
        Err(Error::BadRequest)
    );
    assert_eq!(
        db.restore_agent(Agent { id: "b".to_string(), current_experiment: None, ..busy.clone() }),
        Err(Error::BadRequest)
    );
    assert_eq!(
        db.restore_agent(Agent {
            id: "b".to_string(),
            current_experiment: None,
            status: AgentStatus::Offline,
            ..busy.clone()
        }),
        Ok(())
    );
    assert_eq!(db.list_agents().unwrap().len(), 2);
}

#[test]
fn agent_identifier_text() {
    let bytes: [u8; 16] = [
        0x12, 0x34, 0x56, 0x78, 0x9a, 0xbc, 0x4d, 0xef, 0x80, 0x01, 0x02, 0x03, 0x04, 0x05, 0x06,
        0x07,
    ];
    assert_eq!(
        agent_id_from_bytes(&bytes),
        format!("agent-{}", uuid::Uuid::from_bytes(bytes))
    );
    assert_eq!(agent_id_from_bytes(&bytes), "agent-12345678-9abc-4def-8001-020304050607");
    assert_eq!(AgentStatus::Busy.to_string(), "busy");
    assert_eq!(AgentStatus::from_str("offline"), Ok(AgentStatus::Offline));
}

fn work_through<M: AgentManager>(manager: &mut M) -> usize {
    let agent = manager.register_agent(worker("w")).unwrap();
    manager.heartbeat(&agent.id).unwrap();
    manager.assign_task(&agent.id, "e").unwrap();
    assert_eq!(manager.get_agent(&agent.id).unwrap().unwrap().status, AgentStatus::Busy);
    manager.complete_task(&agent.id).unwrap();
    assert_eq!(manager.list_agents().unwrap().len(), 1);
    manager.cleanup_offline_agents(3600).unwrap()
}

#[test]
fn the_store_is_a_registry_of_workers() {
    let mut db = Database::temp().unwrap();
    assert_eq!(work_through(&mut db), 0);
    assert_eq!(db.list_agents().unwrap().len(), 1);
}

#[test]
fn a_silent_worker_counts_as_offline() {
    let w = Agent {
        id: "a".to_string(),
        name: "n".to_string(),
        capabilities: vec![],
        last_heartbeat: at(100, 0),
        current_experiment: None,
        status: AgentStatus::Idle,
    };
    assert!(!w.is_offline_at(at(400, 0), 300));
    assert!(w.is_offline_at(at(400, 1), 300));
    assert!(!w.is_offline_at(at(50, 0), 0));
}
