//! Requests about workers.

use crate::api::error::{ApiError, ApiErrorView};
use crate::db::experiments::{Database, DatabaseView};
use crate::model::{opt_view, views};
use crate::server::agents::{agent_result_view, Agent, AgentView, RegisterAgent, RegisterAgentView};
use crate::text::concat3;
use crate::time::Timestamp;
use crate::Error;
use vstd::prelude::*;

verus! {

/// What a worker sends to register.
#[derive(Debug)]
pub struct RegisterAgentRequest {
    pub name: String,
    pub capabilities: Vec<String>,
}

/// The answer that holds one worker.
#[derive(Debug)]
pub struct AgentResponse {
    pub agent: Agent,
}

/// The answer that holds all workers.
#[derive(Debug)]
pub struct AgentListResponse {
    pub agents: Vec<Agent>,
}

/// The message that says that no worker has the identifier `id`.
pub open spec fn agent_not_found(id: Seq<char>) -> Seq<char> {
    "Agent '"@ + id + "' not found"@
}

/// Registers a worker. A failure of the store is answered as what it is.
pub fn register_agent(db: &mut Database, req: RegisterAgentRequest) -> (r: Result<
    AgentResponse,
    ApiError,
>)
    requires
        old(db)@.wf(),
    ensures
        final(db)@.wf(),
        match r {
            Ok(answer) => exists|bytes: Seq<u8>, now: Timestamp|
                bytes.len() == 16 && #[trigger] old(db)@.register_outcome(
                    final(db)@,
                    Ok(answer.agent@),
                    RegisterAgentView { name: req.name@, capabilities: views(req.capabilities@) },
                    crate::server::ident::agent_id_text(bytes),
                    now,
                ),
            Err(e) => final(db)@ == old(db)@ && exists|kind: Error|
                e@ == #[trigger] ApiErrorView::of(kind, kind.spec_describe()),
        },
{
    let register = RegisterAgent { name: req.name, capabilities: req.capabilities };
    let ghost rv = register@;
    match db.register_agent(register) {
        Ok(agent) => {
            proof {
                let (bytes, now) = choose|bytes: Seq<u8>, now: Timestamp|
                    bytes.len() == 16 && #[trigger] old(db)@.register_outcome(
                        db@,
                        Ok(agent@),
                        rv,
                        crate::server::ident::agent_id_text(bytes),
                        now,
                    );
                assert(bytes.len() == 16 && old(db)@.register_outcome(
                    db@,
                    Ok(agent@),
                    rv,
                    crate::server::ident::agent_id_text(bytes),
                    now,
                ));
            }
            Ok(AgentResponse { agent })
        },
        Err(e) => {
            let err = ApiError::from_error(e);
            assert(err@ == ApiErrorView::of(e, e.spec_describe()));
            assert(db@ == old(db)@);
            Err(err)
        },
    }
}

/// Records a sign of life of the worker `id` at `now`. A worker that is
/// not there is answered as not found.
pub fn agent_heartbeat(db: &mut Database, id: &str, now: Timestamp) -> (r: Result<(), ApiError>)
    requires
        old(db)@.wf(),
    ensures
        final(db)@.wf(),
        match old(db)@.find_agent(id@) {
            Some(i) => r is Ok && old(db)@.heartbeat_outcome(final(db)@, Ok(()), id@, now),
            None => r is Err && r.unwrap_err()@ == ApiErrorView::NotFound(agent_not_found(id@))
                && final(db)@ == old(db)@,
        },
{
    match db.heartbeat_at(id, now) {
        Ok(()) => Ok(()),
        Err(_) => Err(ApiError::NotFound(concat3("Agent '", id, "' not found"))),
    }
}

/// All workers.
pub fn list_agents(db: &Database) -> (r: Result<AgentListResponse, ApiError>)
    requires
        db@.wf(),
    ensures
        r is Ok,
        views(r.unwrap().agents@) == db@.agents,
{
    match db.list_agents() {
        Ok(agents) => Ok(AgentListResponse { agents }),
        Err(e) => Err(ApiError::from_error(e)),
    }
}

/// The worker with identifier `id`. A worker that is not there is
/// answered as not found.
pub fn get_agent(db: &Database, id: &str) -> (r: Result<AgentResponse, ApiError>)
    requires
        db@.wf(),
    ensures
        match db@.agent(id@) {
            Some(a) => r is Ok && r.unwrap().agent@ == a,
            None => r is Err && r.unwrap_err()@ == ApiErrorView::NotFound(agent_not_found(id@)),
        },
{
    match db.get_agent(id) {
        Ok(Some(agent)) => Ok(AgentResponse { agent }),
        _ => Err(ApiError::NotFound(concat3("Agent '", id, "' not found"))),
    }
}

} // verus!
