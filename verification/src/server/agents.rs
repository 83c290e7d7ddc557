//! The registry of workers.

use crate::db::experiments::{Database, DatabaseView};
use crate::db::{lemma_key_absent, lemma_key_found, lemma_key_index};
use crate::model::{clone_opt_string, clone_strings, opt_view, views};
use crate::server::ident::{agent_id_from_bytes, random_bytes};
use crate::text::str_eq;
use crate::time::Timestamp;
use crate::{Error, Fallible};
use vstd::prelude::*;

verus! {

/// What a worker is doing, as last recorded.
#[derive(Debug, PartialEq, Eq, Hash, Clone, Copy, Structural)]
pub enum AgentStatus {
    /// Waiting for work.
    Idle,
    /// At work on an experiment.
    Busy,
    /// Not heard from.
    Offline,
}

impl AgentStatus {
    /// The name of the value.
    pub open spec fn spec_str(self) -> Seq<char> {
        match self {
            AgentStatus::Idle => "idle"@,
            AgentStatus::Busy => "busy"@,
            AgentStatus::Offline => "offline"@,
        }
    }

    /// The value that a name stands for.
    pub open spec fn spec_parse(s: Seq<char>) -> Option<AgentStatus> {
        if s == "idle"@ {
            Some(AgentStatus::Idle)
        } else if s == "busy"@ {
            Some(AgentStatus::Busy)
        } else if s == "offline"@ {
            Some(AgentStatus::Offline)
        } else {
            None
        }
    }

    pub fn to_str(&self) -> (r: &'static str)
        ensures
            r@ == self.spec_str(),
    {
        match self {
            AgentStatus::Idle => "idle",
            AgentStatus::Busy => "busy",
            AgentStatus::Offline => "offline",
        }
    }

    pub fn to_string(&self) -> (r: String)
        ensures
            r@ == self.spec_str(),
    {
        self.to_str().to_owned()
    }

    /// Parses a name; `BadRequest` where the string is none.
    pub fn from_str(s: &str) -> (r: Result<AgentStatus, Error>)
        ensures
            match Self::spec_parse(s@) {
                Some(v) => r == Ok::<AgentStatus, Error>(v),
                None => r == Err::<AgentStatus, Error>(Error::BadRequest),
            },
    {
        if str_eq(s, "idle") {
            Ok(AgentStatus::Idle)
        } else if str_eq(s, "busy") {
            Ok(AgentStatus::Busy)
        } else if str_eq(s, "offline") {
            Ok(AgentStatus::Offline)
        } else {
            Err(Error::BadRequest)
        }
    }

    /// Parsing the name of a value gives the value back.
    pub proof fn lemma_parse_str(v: AgentStatus)
        ensures
            Self::spec_parse(v.spec_str()) == Some(v),
    {
        reveal_strlit("idle");
        reveal_strlit("busy");
        reveal_strlit("offline");
        assert("idle"@.len() == 4);
        assert("busy"@.len() == 4);
        assert("offline"@.len() == 7);
        assert("idle"@[0] != "busy"@[0]);
    }
}

impl std::str::FromStr for AgentStatus {
    type Err = Error;

    fn from_str(s: &str) -> (r: Result<AgentStatus, Error>)
        ensures
            match AgentStatus::spec_parse(s@) {
                Some(v) => r == Ok::<AgentStatus, Error>(v),
                None => r == Err::<AgentStatus, Error>(Error::BadRequest),
            },
    {
        AgentStatus::from_str(s)
    }
}

/// A registered worker.
#[derive(Debug, PartialEq, Eq)]
pub struct Agent {
    /// Issued at registration; no two workers share one.
    pub id: String,
    pub name: String,
    pub capabilities: Vec<String>,
    pub last_heartbeat: Timestamp,
    /// The experiment the worker is at work on.
    pub current_experiment: Option<String>,
    pub status: AgentStatus,
}

pub struct AgentView {
    pub id: Seq<char>,
    pub name: Seq<char>,
    pub capabilities: Seq<Seq<char>>,
    pub last_heartbeat: Timestamp,
    pub current_experiment: Option<Seq<char>>,
    pub status: AgentStatus,
}

impl View for Agent {
    type V = AgentView;

    open spec fn view(&self) -> AgentView {
        AgentView {
            id: self.id@,
            name: self.name@,
            capabilities: views(self.capabilities@),
            last_heartbeat: self.last_heartbeat,
            current_experiment: opt_view(self.current_experiment),
            status: self.status,
        }
    }
}

impl Clone for Agent {
    fn clone(&self) -> (r: Self)
        ensures
            r@ == self@,
    {
        Agent {
            id: self.id.clone(),
            name: self.name.clone(),
            capabilities: clone_strings(&self.capabilities),
            last_heartbeat: self.last_heartbeat,
            current_experiment: clone_opt_string(&self.current_experiment),
            status: self.status,
        }
    }
}

impl AgentView {
    /// A worker is at work on an experiment exactly when it is busy.
    pub open spec fn consistent(self) -> bool {
        self.current_experiment is Some <==> self.status == AgentStatus::Busy
    }

    /// Whether the worker counts as offline at `now`: more than `max_idle`
    /// seconds have passed since it was last heard from.
    pub open spec fn is_offline_at(self, now: Timestamp, max_idle: int) -> bool {
        now.total_nanos() - self.last_heartbeat.total_nanos() > max_idle * 1_000_000_000
    }
}

impl Agent {
    /// Whether the worker counts as offline at `now`, whatever status is
    /// recorded for it: more than `max_idle` seconds have passed since it was
    /// last heard from.
    pub fn is_offline_at(&self, now: Timestamp, max_idle: i64) -> (r: bool)
        ensures
            r == self@.is_offline_at(now, max_idle as int),
    {
        now.is_more_than_after(max_idle, &self.last_heartbeat)
    }
}

/// What a worker says of itself when it registers.
#[derive(Debug)]
pub struct RegisterAgent {
    pub name: String,
    pub capabilities: Vec<String>,
}

pub struct RegisterAgentView {
    pub name: Seq<char>,
    pub capabilities: Seq<Seq<char>>,
}

impl View for RegisterAgent {
    type V = RegisterAgentView;

    open spec fn view(&self) -> RegisterAgentView {
        RegisterAgentView { name: self.name@, capabilities: views(self.capabilities@) }
    }
}

impl Clone for RegisterAgent {
    fn clone(&self) -> (r: Self)
        ensures
            r@ == self@,
    {
        RegisterAgent { name: self.name.clone(), capabilities: clone_strings(&self.capabilities) }
    }
}

impl RegisterAgentView {
    /// The worker that registers as `id` at `now`: idle, with no
    /// experiment, last heard from at `now`.
    pub open spec fn agent(self, id: Seq<char>, now: Timestamp) -> AgentView {
        AgentView {
            id,
            name: self.name,
            capabilities: self.capabilities,
            last_heartbeat: now,
            current_experiment: None,
            status: AgentStatus::Idle,
        }
    }
}

/// The view of what an operation on workers gives back.
pub open spec fn agent_result_view(r: Result<Agent, Error>) -> Result<AgentView, Error> {
    match r {
        Ok(a) => Ok(a@),
        Err(e) => Err(e),
    }
}

impl DatabaseView {
    /// The store with the worker at `i` replaced.
    pub open spec fn with_agent(self, i: int, a: AgentView) -> DatabaseView {
        DatabaseView { agents: self.agents.update(i, a), ..self }
    }

    /// The worker with identifier `id`.
    pub open spec fn agent(self, id: Seq<char>) -> Option<AgentView> {
        match self.find_agent(id) {
            Some(i) => Some(self.agents[i]),
            None => None,
        }
    }

    /// What registering a worker as `id` at `now` does to the store and
    /// gives back.
    pub open spec fn register_outcome(
        self,
        after: DatabaseView,
        r: Result<AgentView, Error>,
        req: RegisterAgentView,
        id: Seq<char>,
        now: Timestamp,
    ) -> bool {
        if self.find_agent(id) is Some {
            r == Err::<AgentView, Error>(Error::AlreadyExists) && after == self
        } else {
            &&& r == Ok::<AgentView, Error>(req.agent(id, now))
            &&& after == DatabaseView { agents: self.agents.push(req.agent(id, now)), ..self }
        }
    }

    /// What a sign of life of the worker `id` at `now` does to the store
    /// and gives back: the time is recorded, the status stays.
    pub open spec fn heartbeat_outcome(
        self,
        after: DatabaseView,
        r: Result<(), Error>,
        id: Seq<char>,
        now: Timestamp,
    ) -> bool {
        match self.find_agent(id) {
            None => r == Err::<(), Error>(Error::NotFound) && after == self,
            Some(i) => r == Ok::<(), Error>(()) && after == self.with_agent(
                i,
                AgentView { last_heartbeat: now, ..self.agents[i] },
            ),
        }
    }

    /// What giving the worker `id` the experiment `experiment` does to the
    /// store and gives back: only an idle worker takes one, and is busy
    /// with it from then on.
    pub open spec fn assign_task_outcome(
        self,
        after: DatabaseView,
        r: Result<(), Error>,
        id: Seq<char>,
        experiment: Seq<char>,
    ) -> bool {
        match self.find_agent(id) {
            None => r == Err::<(), Error>(Error::NotFound) && after == self,
            Some(i) => if self.agents[i].status == AgentStatus::Idle {
                r == Ok::<(), Error>(()) && after == self.with_agent(
                    i,
                    AgentView {
                        current_experiment: Some(experiment),
                        status: AgentStatus::Busy,
                        ..self.agents[i]
                    },
                )
            } else {
                r == Err::<(), Error>(Error::InvalidState) && after == self
            },
        }
    }

    /// What the end of the task of the worker `id` does to the store and
    /// gives back: the worker is idle and has no experiment.
    pub open spec fn complete_task_outcome(
        self,
        after: DatabaseView,
        r: Result<(), Error>,
        id: Seq<char>,
    ) -> bool {
        match self.find_agent(id) {
            None => r == Err::<(), Error>(Error::NotFound) && after == self,
            Some(i) => r == Ok::<(), Error>(()) && after == self.with_agent(
                i,
                AgentView {
                    current_experiment: None,
                    status: AgentStatus::Idle,
                    ..self.agents[i]
                },
            ),
        }
    }

    /// What a sweep at `now` does to the store and gives back: the workers
    /// not heard from for more than `max_idle` seconds leave, and their
    /// number is given back.
    pub open spec fn sweep_outcome(
        self,
        after: DatabaseView,
        r: Result<usize, Error>,
        max_idle: int,
        now: Timestamp,
    ) -> bool {
        &&& after == DatabaseView {
            agents: self.agents.filter(|a: AgentView| !a.is_offline_at(now, max_idle)),
            ..self
        }
        &&& r == Ok::<usize, Error>((self.agents.len() - after.agents.len()) as usize)
    }
}

/// A store stays in order when a worker is replaced by one with the same
/// identifier that has an experiment exactly when it is busy.
pub proof fn lemma_agent_update_keeps_wf(db: DatabaseView, i: int, a: AgentView)
    requires
        db.wf(),
        0 <= i < db.agents.len(),
        a.id == db.agents[i].id,
        a.consistent(),
    ensures
        db.with_agent(i, a).wf(),
{
    let after = db.with_agent(i, a);
    assert(after.agent_ids() =~= db.agent_ids());
    assert forall|k: int| 0 <= k < after.agents.len() implies (#[trigger] after.agents[k]).consistent() by {
        if k != i {
            assert(after.agents[k] == db.agents[k]);
        }
    }
}

impl Database {
    /// Where the worker with identifier `id` stands.
    pub(crate) fn agent_position(&self, id: &str) -> (r: Option<usize>)
        requires
            self@.wf(),
        ensures
            match r {
                Some(i) => self@.find_agent(id@) == Some(i as int) && i < self.agents.len(),
                None => self@.find_agent(id@) is None,
            },
    {
        let mut i: usize = 0;
        while i < self.agents.len()
            invariant
                0 <= i <= self.agents.len(),
                self@.wf(),
                forall|j: int| 0 <= j < i ==> self@.agent_ids()[j] != id@,
            decreases self.agents.len() - i,
        {
            if str_eq(self.agents[i].id.as_str(), id) {
                proof {
                    assert(self@.agent_ids()[i as int] == id@);
                    lemma_key_found(self@.agent_ids(), id@, i as int);
                }
                return Some(i);
            }
            i += 1;
        }
        proof {
            lemma_key_absent(self@.agent_ids(), id@);
        }
        None
    }

    /// Registers a worker under the identifier `id` at `now`.
    /// `AlreadyExists` where the identifier is taken.
    pub fn register_agent_as(&mut self, req: RegisterAgent, id: String, now: Timestamp) -> (r:
        Fallible<Agent>)
        requires
            old(self)@.wf(),
        ensures
            final(self)@.wf(),
            old(self)@.register_outcome(final(self)@, agent_result_view(r), req@, id@, now),
    {
        if self.agent_position(id.as_str()).is_some() {
            return Err(Error::AlreadyExists);
        }
        let ghost before = self@;
        let agent = Agent {
            id,
            name: req.name,
            capabilities: req.capabilities,
            last_heartbeat: now,
            current_experiment: None,
            status: AgentStatus::Idle,
        };
        let copy = agent.clone();
        self.agents.push(agent);
        proof {
            let a = req@.agent(id@, now);
            let after = DatabaseView { agents: before.agents.push(a), ..before };
            assert(self@.agents =~= after.agents);
            assert(self@.experiments =~= before.experiments);
            assert(self@ == after);
            assert(after.agent_ids() =~= before.agent_ids().push(id@));
            lemma_key_index(before.agent_ids(), id@);
            assert(after.names() =~= before.names());
        }
        Ok(copy)
    }

    /// Registers a worker under a fresh identifier, at the time the clock
    /// shows. `Internal`, and nothing done, where the clock shows no
    /// instant.
    pub fn register_agent(&mut self, req: RegisterAgent) -> (r: Fallible<Agent>)
        requires
            old(self)@.wf(),
        ensures
            final(self)@.wf(),
            (r == Err::<Agent, Error>(Error::Internal) && final(self)@ == old(self)@) || exists|
                bytes: Seq<u8>,
                now: Timestamp,
            |
                bytes.len() == 16 && #[trigger] old(self)@.register_outcome(
                    final(self)@,
                    agent_result_view(r),
                    req@,
                    crate::server::ident::agent_id_text(bytes),
                    now,
                ),
    {
        match Timestamp::now() {
            Some(now) => {
                let bytes = random_bytes();
                let id = agent_id_from_bytes(&bytes);
                let ghost rv = req@;
                let ghost idv = id@;
                let r = self.register_agent_as(req, id, now);
                assert(bytes@.len() == 16 && old(self)@.register_outcome(
                    self@,
                    agent_result_view(r),
                    rv,
                    crate::server::ident::agent_id_text(bytes@),
                    now,
                ));
                r
            },
            None => Err(Error::Internal),
        }
    }

    /// Records a sign of life of the worker `agent_id` at `now`. `NotFound`
    /// where there is no such worker.
    pub fn heartbeat_at(&mut self, agent_id: &str, now: Timestamp) -> (r: Fallible<()>)
        requires
            old(self)@.wf(),
        ensures
            final(self)@.wf(),
            old(self)@.heartbeat_outcome(final(self)@, r, agent_id@, now),
    {
        let i = match self.agent_position(agent_id) {
            Some(i) => i,
            None => {
                return Err(Error::NotFound);
            },
        };
        let ghost before = self@;
        self.agents[i].last_heartbeat = now;
        proof {
            let a = AgentView { last_heartbeat: now, ..before.agents[i as int] };
            assert(before.agents[i as int].consistent());
            assert(self@.agents =~= before.with_agent(i as int, a).agents);
            assert(self@.experiments =~= before.experiments);
            assert(self@ == before.with_agent(i as int, a));
            lemma_agent_update_keeps_wf(before, i as int, a);
        }
        Ok(())
    }

    /// Records a sign of life of the worker `agent_id` at the time the
    /// clock shows.
    pub fn heartbeat(&mut self, agent_id: &str) -> (r: Fallible<()>)
        requires
            old(self)@.wf(),
        ensures
            final(self)@.wf(),
            (r == Err::<(), Error>(Error::Internal) && final(self)@ == old(self)@) || exists|
                now: Timestamp,
            | #[trigger]
                old(self)@.heartbeat_outcome(final(self)@, r, agent_id@, now),
    {
        match Timestamp::now() {
            Some(now) => {
                let r = self.heartbeat_at(agent_id, now);
                assert(old(self)@.heartbeat_outcome(self@, r, agent_id@, now));
                r
            },
            None => Err(Error::Internal),
        }
    }

    /// The worker with identifier `agent_id`, where there is one.
    pub fn get_agent(&self, agent_id: &str) -> (r: Fallible<Option<Agent>>)
        requires
            self@.wf(),
        ensures
            r is Ok,
            opt_view(r.unwrap()) == self@.agent(agent_id@),
    {
        match self.agent_position(agent_id) {
            Some(i) => Ok(Some(self.agents[i].clone())),
            None => Ok(None),
        }
    }

    /// All workers, in the order in which they registered.
    pub fn list_agents(&self) -> (r: Fallible<Vec<Agent>>)
        requires
            self@.wf(),
        ensures
            r is Ok,
            views(r.unwrap()@) == self@.agents,
    {
        let mut out: Vec<Agent> = Vec::new();
        let mut i: usize = 0;
        while i < self.agents.len()
            invariant
                0 <= i <= self.agents.len(),
                out@.len() == i,
                forall|j: int| 0 <= j < i ==> out@[j]@ == self.agents@[j]@,
            decreases self.agents.len() - i,
        {
            out.push(self.agents[i].clone());
            i += 1;
        }
        assert(views(out@) =~= self@.agents);
        Ok(out)
    }

    /// Gives the worker `agent_id` the experiment `experiment`. `NotFound`
    /// where there is no such worker; `InvalidState` unless it is idle.
    pub fn assign_task(&mut self, agent_id: &str, experiment: &str) -> (r: Fallible<()>)
        requires
            old(self)@.wf(),
        ensures
            final(self)@.wf(),
            old(self)@.assign_task_outcome(final(self)@, r, agent_id@, experiment@),
    {
        let i = match self.agent_position(agent_id) {
            Some(i) => i,
            None => {
                return Err(Error::NotFound);
            },
        };
        if self.agents[i].status != AgentStatus::Idle {
            return Err(Error::InvalidState);
        }
        let ghost before = self@;
        self.agents[i].current_experiment = Some(experiment.to_owned());
        self.agents[i].status = AgentStatus::Busy;
        proof {
            let a = AgentView {
                current_experiment: Some(experiment@),
                status: AgentStatus::Busy,
                ..before.agents[i as int]
            };
            assert(self@.agents =~= before.with_agent(i as int, a).agents);
            assert(self@.experiments =~= before.experiments);
            assert(self@ == before.with_agent(i as int, a));
            lemma_agent_update_keeps_wf(before, i as int, a);
        }
        Ok(())
    }

    /// Ends the task of the worker `agent_id`. `NotFound` where there is no
    /// such worker.
    pub fn complete_task(&mut self, agent_id: &str) -> (r: Fallible<()>)
        requires
            old(self)@.wf(),
        ensures
            final(self)@.wf(),
            old(self)@.complete_task_outcome(final(self)@, r, agent_id@),
    {
        let i = match self.agent_position(agent_id) {
            Some(i) => i,
            None => {
                return Err(Error::NotFound);
            },
        };
        let ghost before = self@;
        self.agents[i].current_experiment = None;
        self.agents[i].status = AgentStatus::Idle;
        proof {
            let a = AgentView {
                current_experiment: None,
                status: AgentStatus::Idle,
                ..before.agents[i as int]
            };
            assert(self@.agents =~= before.with_agent(i as int, a).agents);
            assert(self@.experiments =~= before.experiments);
            assert(self@ == before.with_agent(i as int, a));
            lemma_agent_update_keeps_wf(before, i as int, a);
        }
        Ok(())
    }

    /// Removes the workers not heard from for more than `timeout_secs`
    /// seconds before `now`, and gives back how many they were.
    pub fn cleanup_offline_agents_at(&mut self, timeout_secs: i64, now: Timestamp) -> (r: Fallible<
        usize,
    >)
        requires
            old(self)@.wf(),
        ensures
            final(self)@.wf(),
            old(self)@.sweep_outcome(final(self)@, r, timeout_secs as int, now),
    {
        let ghost before = self@;
        let ghost keep = |a: AgentView| !a.is_offline_at(now, timeout_secs as int);
        let mut kept: Vec<Agent> = Vec::new();
        let ghost mut from: Seq<int> = Seq::empty();
        let mut i: usize = 0;
        assert(before.agents.subrange(0, 0) =~= Seq::empty());
        proof {
            reveal(Seq::filter);
        }
        while i < self.agents.len()
            invariant
                0 <= i <= self.agents.len(),
                self@ == before,
                keep == |a: AgentView| !a.is_offline_at(now, timeout_secs as int),
                views(kept@) == before.agents.subrange(0, i as int).filter(keep),
                from.len() == kept@.len(),
                kept@.len() <= i,
                forall|k: int| 0 <= k < from.len() ==> 0 <= #[trigger] from[k] < i && kept@[k]@
                    == before.agents[from[k]],
                forall|k: int, l: int| 0 <= k < l < from.len() ==> from[k] < from[l],
            decreases self.agents.len() - i,
        {
            let ghost part = before.agents.subrange(0, i + 1);
            proof {
                reveal(Seq::filter);
                assert(part.drop_last() =~= before.agents.subrange(0, i as int));
                assert(part.last() == before.agents[i as int]);
            }
            if !now.is_more_than_after(timeout_secs, &self.agents[i].last_heartbeat) {
                kept.push(self.agents[i].clone());
                proof {
                    from = from.push(i as int);
                    assert(views(kept@) =~= part.filter(keep));
                }
            }
            i += 1;
        }
        let removed: usize = self.agents.len() - kept.len();
        self.agents = kept;
        proof {
            assert(before.agents.subrange(0, before.agents.len() as int) =~= before.agents);
            let after = DatabaseView { agents: before.agents.filter(keep), ..before };
            assert(self@.experiments =~= before.experiments);
            assert(self@ == after);
            assert(after.names() =~= before.names());
            assert forall|a: int, b: int|
                0 <= a < after.agent_ids().len() && 0 <= b < after.agent_ids().len() && a
                    != b implies after.agent_ids()[a] != after.agent_ids()[b] by {
                assert(after.agents[a] == before.agents[from[a]]);
                assert(after.agents[b] == before.agents[from[b]]);
                assert(from[a] != from[b]);
                assert(before.agent_ids()[from[a]] == before.agents[from[a]].id);
                assert(before.agent_ids()[from[b]] == before.agents[from[b]].id);
            }
            assert forall|k: int| 0 <= k < after.agents.len() implies (#[trigger] after.agents[k]).consistent() by {
                assert(after.agents[k] == before.agents[from[k]]);
            }
        }
        Ok(removed)
    }

    /// Removes the workers not heard from for more than `timeout_secs`
    /// seconds, at the time the clock shows. `Internal`, and nothing done,
    /// where the clock shows no instant.
    pub fn cleanup_offline_agents(&mut self, timeout_secs: i64) -> (r: Fallible<usize>)
        requires
            old(self)@.wf(),
        ensures
            final(self)@.wf(),
            (r == Err::<usize, Error>(Error::Internal) && final(self)@ == old(self)@) || exists|
                now: Timestamp,
            | #[trigger]
                old(self)@.sweep_outcome(final(self)@, r, timeout_secs as int, now),
    {
        match Timestamp::now() {
            Some(now) => {
                let r = self.cleanup_offline_agents_at(timeout_secs, now);
                assert(old(self)@.sweep_outcome(self@, r, timeout_secs as int, now));
                r
            },
            None => Err(Error::Internal),
        }
    }
}

impl DatabaseView {
    /// What taking in a worker that registered elsewhere does to the store
    /// and gives back: it is taken in where it has an experiment exactly
    /// when it is busy, and its identifier is free.
    pub open spec fn restore_agent_outcome(
        self,
        after: DatabaseView,
        r: Result<(), Error>,
        agent: AgentView,
    ) -> bool {
        if !agent.consistent() {
            r == Err::<(), Error>(Error::BadRequest) && after == self
        } else if self.find_agent(agent.id) is Some {
            r == Err::<(), Error>(Error::AlreadyExists) && after == self
        } else {
            r == Ok::<(), Error>(()) && after == DatabaseView {
                agents: self.agents.push(agent),
                ..self
            }
        }
    }
}

impl Database {
    /// Takes in a worker that registered elsewhere. `BadRequest` unless it
    /// has an experiment exactly when it is busy; `AlreadyExists` where its
    /// identifier is taken.
    pub fn restore_agent(&mut self, agent: Agent) -> (r: Fallible<()>)
        requires
            old(self)@.wf(),
        ensures
            final(self)@.wf(),
            old(self)@.restore_agent_outcome(final(self)@, r, agent@),
    {
        let busy = agent.status == AgentStatus::Busy;
        if agent.current_experiment.is_some() != busy {
            return Err(Error::BadRequest);
        }
        if self.agent_position(agent.id.as_str()).is_some() {
            return Err(Error::AlreadyExists);
        }
        let ghost before = self@;
        let ghost av = agent@;
        self.agents.push(agent);
        proof {
            let after = DatabaseView { agents: before.agents.push(av), ..before };
            assert(self@.agents =~= after.agents);
            assert(self@.experiments =~= before.experiments);
            assert(self@ == after);
            assert(after.agent_ids() =~= before.agent_ids().push(av.id));
            lemma_key_index(before.agent_ids(), av.id);
            assert(after.names() =~= before.names());
        }
        Ok(())
    }
}

/// Giving an experiment to a worker that is busy fails with
/// `InvalidState` and changes nothing; so does giving a second experiment
/// to a worker that has just been given one.
pub proof fn lemma_assign_to_busy(
    db: DatabaseView,
    after: DatabaseView,
    r: Result<(), Error>,
    id: Seq<char>,
    experiment: Seq<char>,
)
    requires
        db.wf(),
        db.find_agent(id) is Some,
        db.agent(id).unwrap().status == AgentStatus::Busy,
        db.assign_task_outcome(after, r, id, experiment),
    ensures
        r == Err::<(), Error>(Error::InvalidState),
        after == db,
{
}

/// A worker that has been given an experiment is busy.
pub proof fn lemma_assigned_is_busy(
    db: DatabaseView,
    after: DatabaseView,
    id: Seq<char>,
    experiment: Seq<char>,
)
    requires
        db.wf(),
        db.assign_task_outcome(after, Ok(()), id, experiment),
    ensures
        after.agent(id) is Some,
        after.agent(id).unwrap().status == AgentStatus::Busy,
        after.agent(id).unwrap().current_experiment == Some(experiment),
{
    lemma_key_index(db.agent_ids(), id);
    let i = db.find_agent(id).unwrap();
    assert(after.agent_ids() =~= db.agent_ids());
}

/// A worker as a row of text, the form in which it is kept on disk: the
/// capabilities as a JSON list, the time as RFC 3339 text.
#[derive(Debug, PartialEq, Eq)]
pub struct AgentDBRecord {
    pub id: String,
    pub name: String,
    pub capabilities: String,
    pub last_heartbeat: String,
    pub current_experiment: Option<String>,
    pub status: String,
}

pub struct AgentDBRecordView {
    pub id: Seq<char>,
    pub name: Seq<char>,
    pub capabilities: Seq<char>,
    pub last_heartbeat: Seq<char>,
    pub current_experiment: Option<Seq<char>>,
    pub status: Seq<char>,
}

impl View for AgentDBRecord {
    type V = AgentDBRecordView;

    open spec fn view(&self) -> AgentDBRecordView {
        AgentDBRecordView {
            id: self.id@,
            name: self.name@,
            capabilities: self.capabilities@,
            last_heartbeat: self.last_heartbeat@,
            current_experiment: opt_view(self.current_experiment),
            status: self.status@,
        }
    }
}

/// The status that a text of a row stands for: a text that names none
/// stands for a worker that is not heard from.
pub open spec fn stored_status(s: Seq<char>) -> AgentStatus {
    match AgentStatus::spec_parse(s) {
        Some(status) => status,
        None => AgentStatus::Offline,
    }
}

impl AgentDBRecordView {
    /// The worker that a row stands for, where its capabilities and its
    /// time parse.
    pub open spec fn parse(self) -> Option<AgentView> {
        match (
            crate::utils::json::serde_list_items(self.capabilities),
            Timestamp::spec_parse(self.last_heartbeat),
        ) {
            (Some(capabilities), Some(last_heartbeat)) => Some(
                AgentView {
                    id: self.id,
                    name: self.name,
                    capabilities,
                    last_heartbeat,
                    current_experiment: self.current_experiment,
                    status: stored_status(self.status),
                },
            ),
            _ => None,
        }
    }
}

impl AgentView {
    /// The row that stands for the worker, where its time and its
    /// capabilities have a text.
    pub open spec fn record(self) -> Option<AgentDBRecordView> {
        match (
            crate::time::rfc3339_text(
                self.last_heartbeat.spec_secs(),
                self.last_heartbeat.spec_nanos(),
            ),
            crate::utils::json::serde_list_text(self.capabilities),
        ) {
            (Some(text), Some(capabilities)) => Some(
                AgentDBRecordView {
                    id: self.id,
                    name: self.name,
                    capabilities,
                    last_heartbeat: text,
                    current_experiment: self.current_experiment,
                    status: self.status.spec_str(),
                },
            ),
            _ => None,
        }
    }
}

impl Agent {
    /// The worker that a row of the store stands for; `Internal` where
    /// its capabilities or its time do not parse.
    pub fn from_record(record: &AgentDBRecord) -> (r: Result<Agent, Error>)
        ensures
            match record@.parse() {
                Some(a) => r is Ok && r.unwrap()@ == a,
                None => r == Err::<Agent, Error>(Error::Internal),
            },
    {
        let capabilities = match crate::utils::json::read_string_list(record.capabilities.as_str()) {
            Some(c) => c,
            None => {
                return Err(Error::Internal);
            },
        };
        let last_heartbeat = match Timestamp::parse_from_rfc3339(record.last_heartbeat.as_str()) {
            Ok(t) => t,
            Err(_) => {
                return Err(Error::Internal);
            },
        };
        let status = match AgentStatus::from_str(record.status.as_str()) {
            Ok(s) => s,
            Err(_) => AgentStatus::Offline,
        };
        Ok(
            Agent {
                id: record.id.clone(),
                name: record.name.clone(),
                capabilities,
                last_heartbeat,
                current_experiment: clone_opt_string(&record.current_experiment),
                status,
            },
        )
    }

    /// The row that stands for the worker; `Internal` where its time or
    /// its capabilities have no text.
    pub fn to_record(&self) -> (r: Result<AgentDBRecord, Error>)
        ensures
            match self@.record() {
                Some(rec) => r is Ok && r.unwrap()@ == rec,
                None => r == Err::<AgentDBRecord, Error>(Error::Internal),
            },
    {
        let last_heartbeat = match self.last_heartbeat.to_rfc3339() {
            Some(t) => t,
            None => {
                return Err(Error::Internal);
            },
        };
        let capabilities = match crate::utils::json::write_string_list(&self.capabilities) {
            Some(c) => c,
            None => {
                return Err(Error::Internal);
            },
        };
        Ok(
            AgentDBRecord {
                id: self.id.clone(),
                name: self.name.clone(),
                capabilities,
                last_heartbeat,
                current_experiment: clone_opt_string(&self.current_experiment),
                status: self.status.to_string(),
            },
        )
    }
}

/// What a registry of workers offers. The store of this crate is one.
pub trait AgentManager: View<V = DatabaseView> + Sized {
    /// Registers a worker under a fresh identifier.
    fn register_agent(&mut self, req: RegisterAgent) -> (r: Fallible<Agent>)
        requires
            old(self)@.wf(),
        ensures
            final(self)@.wf(),
            (r == Err::<Agent, Error>(Error::Internal) && final(self)@ == old(self)@) || exists|
                bytes: Seq<u8>,
                now: Timestamp,
            |
                bytes.len() == 16 && #[trigger] old(self)@.register_outcome(
                    final(self)@,
                    agent_result_view(r),
                    req@,
                    crate::server::ident::agent_id_text(bytes),
                    now,
                ),
    ;

    /// Records a sign of life of a worker.
    fn heartbeat(&mut self, agent_id: &str) -> (r: Fallible<()>)
        requires
            old(self)@.wf(),
        ensures
            final(self)@.wf(),
            (r == Err::<(), Error>(Error::Internal) && final(self)@ == old(self)@) || exists|
                now: Timestamp,
            | #[trigger]
                old(self)@.heartbeat_outcome(final(self)@, r, agent_id@, now),
    ;

    /// The worker with identifier `agent_id`, where there is one.
    fn get_agent(&self, agent_id: &str) -> (r: Fallible<Option<Agent>>)
        requires
            self@.wf(),
        ensures
            r is Ok,
            opt_view(r.unwrap()) == self@.agent(agent_id@),
    ;

    /// All workers.
    fn list_agents(&self) -> (r: Fallible<Vec<Agent>>)
        requires
            self@.wf(),
        ensures
            r is Ok,
            views(r.unwrap()@) == self@.agents,
    ;

    /// Gives an idle worker an experiment.
    fn assign_task(&mut self, agent_id: &str, experiment: &str) -> (r: Fallible<()>)
        requires
            old(self)@.wf(),
        ensures
            final(self)@.wf(),
            old(self)@.assign_task_outcome(final(self)@, r, agent_id@, experiment@),
    ;

    /// Ends the task of a worker.
    fn complete_task(&mut self, agent_id: &str) -> (r: Fallible<()>)
        requires
            old(self)@.wf(),
        ensures
            final(self)@.wf(),
            old(self)@.complete_task_outcome(final(self)@, r, agent_id@),
    ;

    /// Removes the workers not heard from for more than `timeout_secs`
    /// seconds.
    fn cleanup_offline_agents(&mut self, timeout_secs: i64) -> (r: Fallible<usize>)
        requires
            old(self)@.wf(),
        ensures
            final(self)@.wf(),
            (r == Err::<usize, Error>(Error::Internal) && final(self)@ == old(self)@) || exists|
                now: Timestamp,
            | #[trigger]
                old(self)@.sweep_outcome(final(self)@, r, timeout_secs as int, now),
    ;
}

impl AgentManager for Database {
    fn register_agent(&mut self, req: RegisterAgent) -> (r: Fallible<Agent>) {
        Database::register_agent(self, req)
    }

    fn heartbeat(&mut self, agent_id: &str) -> (r: Fallible<()>) {
        Database::heartbeat(self, agent_id)
    }

    fn get_agent(&self, agent_id: &str) -> (r: Fallible<Option<Agent>>) {
        Database::get_agent(self, agent_id)
    }

    fn list_agents(&self) -> (r: Fallible<Vec<Agent>>) {
        Database::list_agents(self)
    }

    fn assign_task(&mut self, agent_id: &str, experiment: &str) -> (r: Fallible<()>) {
        Database::assign_task(self, agent_id, experiment)
    }

    fn complete_task(&mut self, agent_id: &str) -> (r: Fallible<()>) {
        Database::complete_task(self, agent_id)
    }

    fn cleanup_offline_agents(&mut self, timeout_secs: i64) -> (r: Fallible<usize>) {
        Database::cleanup_offline_agents(self, timeout_secs)
    }
}

} // verus!
