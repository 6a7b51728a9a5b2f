use vstd::prelude::*;

use crate::config::{AgentProcessConfig, NamedAgentConfig};
use crate::errors::ServiceError;
use crate::events::{SessionUpdate, SessionUpdateEvent};

verus! {

/// The lifecycle state of a configured agent's subprocess.
#[derive(Clone, Copy, PartialEq, Eq, Structural, Debug)]
pub enum AgentState {
    /// Configured; no process was ever started.
    Configured,
    /// A spawn is in flight; concurrent session creators await it.
    Spawning,
    /// The subprocess runs and the handshake succeeded.
    Running,
    /// The subprocess exited unexpectedly; the agent is respawned lazily
    /// on the next session creation.
    Crashed,
    /// The subprocess could not start or was stopped; also respawned
    /// lazily.
    Stopped,
}

/// One session hosted by an agent process.
#[derive(Debug)]
pub struct SessionRecord {
    /// Opaque id issued by the agent on creation.
    pub session_id: String,
    /// The agent hosting the session.
    pub agent_name: String,
    /// When the session was created.
    pub created_at: u64,
    /// When the session last saw traffic.
    pub last_activity: u64,
    /// Open until explicitly closed or the process ends.
    pub open: bool,
}

impl Clone for SessionRecord {
    fn clone(&self) -> (res: Self)
        ensures
            res == *self,
    {
        SessionRecord {
            session_id: self.session_id.clone(),
            agent_name: self.agent_name.clone(),
            created_at: self.created_at,
            last_activity: self.last_activity,
            open: self.open,
        }
    }
}

/// What the caller of `begin_create_session` must perform next; the
/// manager itself never touches a process or a pipe.
#[derive(Debug)]
pub enum CreateSessionAction {
    /// Launch the subprocess with this spec, report the outcome through
    /// `complete_spawn`, then request a new session over the protocol and
    /// report it through `register_session`.
    SpawnProcess {
        /// The launch spec of the agent.
        config: AgentProcessConfig,
    },
    /// Another caller's spawn is in flight: await its `complete_spawn`,
    /// then request a new session over the protocol.
    AwaitSpawn,
    /// The process already runs: request a new session over the protocol
    /// and report it through `register_session`.
    RequestNewSession,
}

struct AgentEntry {
    name: String,
    config: AgentProcessConfig,
    state: AgentState,
}

/// The sessions in `s` that belong to agent `name` and are open, oldest
/// first.
pub open spec fn open_sessions_in(s: Seq<SessionRecord>, name: Seq<char>) -> Seq<SessionRecord>
    decreases s.len(),
{
    if s.len() == 0 {
        s
    } else {
        let rest = open_sessions_in(s.drop_last(), name);
        if s.last().agent_name@ == name && s.last().open {
            rest.push(s.last())
        } else {
            rest
        }
    }
}

/// The reason text carried by synthetic failure updates.
pub open spec fn crash_reason() -> Seq<char> {
    "agent process exited"@
}

/// Whether `ev` is the synthetic failure update for session `s`.
pub open spec fn is_crash_event(ev: SessionUpdateEvent, s: SessionRecord) -> bool {
    &&& ev.session_id@ == s.session_id@
    &&& ev.update matches SessionUpdate::SessionFailed { reason } && reason@ == crash_reason()
}

/// The agent process manager: owns the map from configured agent name to
/// subprocess state and hosted sessions, and decides every lifecycle
/// transition. Spawning is idempotent: while one spawn is in flight every
/// further session creation for that agent awaits it instead of launching
/// a second process.
pub struct AgentManager {
    agents: Vec<AgentEntry>,
    sessions: Vec<SessionRecord>,
}

impl AgentManager {
    /// Whether an agent is configured under `name`.
    pub closed spec fn has_agent(&self, name: Seq<char>) -> bool {
        exists|i: int|
            0 <= i < self.agents@.len() && (#[trigger] self.agents@[i]).name@ == name
    }

    pub closed spec fn agent_idx(&self, name: Seq<char>) -> int {
        choose|i: int|
            0 <= i < self.agents@.len() && (#[trigger] self.agents@[i]).name@ == name
    }

    /// The lifecycle state of the agent configured under `name`.
    pub closed spec fn state_of(&self, name: Seq<char>) -> AgentState {
        self.agents@[self.agent_idx(name)].state
    }

    /// The launch spec of the agent configured under `name`.
    pub closed spec fn config_of(&self, name: Seq<char>) -> AgentProcessConfig {
        self.agents@[self.agent_idx(name)].config
    }

    /// The names of the configured agents, in configuration order.
    pub closed spec fn names(&self) -> Seq<String> {
        self.agents@.map_values(|e: AgentEntry| e.name)
    }

    /// All session records, in creation order.
    pub closed spec fn sessions(&self) -> Seq<SessionRecord> {
        self.sessions@
    }

    /// Whether agent `name` hosts a session with id `sid`.
    pub open spec fn has_session(&self, name: Seq<char>, sid: Seq<char>) -> bool {
        exists|i: int|
            0 <= i < self.sessions().len() && (#[trigger] self.sessions()[i]).agent_name@ == name
                && self.sessions()[i].session_id@ == sid
    }

    pub closed spec fn session_idx(&self, name: Seq<char>, sid: Seq<char>) -> int {
        choose|i: int|
            0 <= i < self.sessions().len() && (#[trigger] self.sessions()[i]).agent_name@ == name
                && self.sessions()[i].session_id@ == sid
    }

    /// Whether that session exists and is still open.
    pub open spec fn session_open(&self, name: Seq<char>, sid: Seq<char>) -> bool {
        self.has_session(name, sid) && self.sessions()[self.session_idx(name, sid)].open
    }

    /// Whether some agent other than `name` hosts a session with id `sid`.
    pub open spec fn session_elsewhere(&self, sid: Seq<char>, name: Seq<char>) -> bool {
        exists|i: int|
            0 <= i < self.sessions().len() && (#[trigger] self.sessions()[i]).agent_name@ != name
                && self.sessions()[i].session_id@ == sid
    }

    /// Agent names are unique, as are (agent, session id) pairs.
    pub closed spec fn wf(&self) -> bool {
        &&& forall|i: int, j: int|
            0 <= i < j < self.agents@.len() ==> (#[trigger] self.agents@[i]).name@ != (
            #[trigger] self.agents@[j]).name@
        &&& forall|i: int, j: int|
            0 <= i < j < self.sessions@.len() ==> !((#[trigger] self.sessions@[i]).agent_name@
                == (#[trigger] self.sessions@[j]).agent_name@
                && self.sessions@[i].session_id@ == self.sessions@[j].session_id@)
    }

    proof fn lemma_agent_idx(&self, name: Seq<char>, i: int)
        requires
            self.wf(),
            0 <= i < self.agents@.len(),
            self.agents@[i].name@ == name,
        ensures
            self.has_agent(name),
            self.agent_idx(name) == i,
    {
        assert(self.has_agent(name));
        let j = self.agent_idx(name);
        if i < j {
            assert(self.agents@[i].name@ != self.agents@[j].name@);
        } else if j < i {
            assert(self.agents@[j].name@ != self.agents@[i].name@);
        }
    }

    proof fn lemma_session_idx(&self, name: Seq<char>, sid: Seq<char>, i: int)
        requires
            self.wf(),
            0 <= i < self.sessions@.len(),
            self.sessions@[i].agent_name@ == name,
            self.sessions@[i].session_id@ == sid,
        ensures
            self.has_session(name, sid),
            self.session_idx(name, sid) == i,
    {
        assert(self.sessions()[i].agent_name@ == name && self.sessions()[i].session_id@ == sid);
        assert(self.has_session(name, sid));
        let j = self.session_idx(name, sid);
        if i < j {
            assert(!(self.sessions@[i].agent_name@ == self.sessions@[j].agent_name@
                && self.sessions@[i].session_id@ == self.sessions@[j].session_id@));
        } else if j < i {
            assert(!(self.sessions@[j].agent_name@ == self.sessions@[i].agent_name@
                && self.sessions@[j].session_id@ == self.sessions@[i].session_id@));
        }
    }

    /// A manager over the configured agents, none spawned. A name
    /// configured twice keeps its first launch spec.
    pub fn new(configs: Vec<NamedAgentConfig>) -> (m: Self)
        ensures
            m.wf(),
            m.sessions() == Seq::<SessionRecord>::empty(),
            forall|name: Seq<char>| #[trigger]
                m.has_agent(name) <==> exists|i: int|
                    0 <= i < configs@.len() && (#[trigger] configs@[i]).name@ == name,
            forall|name: Seq<char>|
                m.has_agent(name) ==> #[trigger] m.state_of(name) == AgentState::Configured,
    {
        let mut agents: Vec<AgentEntry> = Vec::new();
        let n = configs.len();
        let mut i: usize = 0;
        while i < n
            invariant
                i <= n,
                n == configs@.len(),
                forall|a: int, b: int|
                    0 <= a < b < agents@.len() ==> (#[trigger] agents@[a]).name@ != (
                    #[trigger] agents@[b]).name@,
                forall|a: int|
                    0 <= a < agents@.len() ==> (#[trigger] agents@[a]).state
                        == AgentState::Configured,
                forall|a: int|
                    0 <= a < agents@.len() ==> exists|j: int|
                        0 <= j < i && (#[trigger] configs@[j]).name@ == (
                        #[trigger] agents@[a]).name@,
                forall|j: int|
                    0 <= j < i ==> exists|a: int|
                        0 <= a < agents@.len() && (#[trigger] agents@[a]).name@ == (
                        #[trigger] configs@[j]).name@,
            decreases n - i,
        {
            let mut seen = false;
            let m = agents.len();
            let mut k: usize = 0;
            while k < m
                invariant
                    k <= m,
                    m == agents@.len(),
                    i < n,
                    n == configs@.len(),
                    seen <==> exists|a: int|
                        0 <= a < k && (#[trigger] agents@[a]).name@ == configs@[i as int].name@,
                decreases m - k,
            {
                if agents[k].name == configs[i].name {
                    seen = true;
                }
                k = k + 1;
            }
            let ghost before = agents@;
            if !seen {
                let name = configs[i].name.clone();
                let config = configs[i].config.clone();
                agents.push(AgentEntry { name, config, state: AgentState::Configured });
            }
            proof {
                assert forall|j: int| 0 <= j < i + 1 implies exists|a: int|
                    0 <= a < agents@.len() && (#[trigger] agents@[a]).name@ == (
                    #[trigger] configs@[j]).name@ by {
                    if j == i {
                        if seen {
                            let a = choose|a: int|
                                0 <= a < before.len() && (#[trigger] before[a]).name@
                                    == configs@[i as int].name@;
                            assert(agents@[a].name@ == configs@[j].name@);
                        } else {
                            assert(agents@[agents@.len() - 1].name@ == configs@[j].name@);
                        }
                    } else {
                        let a = choose|a: int|
                            0 <= a < before.len() && (#[trigger] before[a]).name@ == (
                            #[trigger] configs@[j]).name@;
                        assert(agents@[a].name@ == configs@[j].name@);
                    }
                }
            }
            i = i + 1;
        }
        let m = AgentManager { agents, sessions: Vec::new() };
        proof {
            assert forall|name: Seq<char>| #[trigger]
                m.has_agent(name) <==> exists|j: int|
                    0 <= j < configs@.len() && (#[trigger] configs@[j]).name@ == name by {
                if m.has_agent(name) {
                    let a = choose|a: int|
                        0 <= a < m.agents@.len() && (#[trigger] m.agents@[a]).name@ == name;
                    assert(exists|j: int|
                        0 <= j < configs@.len() && (#[trigger] configs@[j]).name@ == name);
                }
                if exists|j: int|
                    0 <= j < configs@.len() && (#[trigger] configs@[j]).name@ == name {
                    let j = choose|j: int|
                        0 <= j < configs@.len() && (#[trigger] configs@[j]).name@ == name;
                    let a = choose|a: int|
                        0 <= a < m.agents@.len() && (#[trigger] m.agents@[a]).name@
                            == configs@[j].name@;
                    assert(m.agents@[a].name@ == name);
                }
            }
            assert forall|name: Seq<char>| m.has_agent(name) implies #[trigger] m.state_of(name)
                == AgentState::Configured by {
                let a = m.agent_idx(name);
            }
        }
        m
    }

    /// The currently configured agent names; side-effect-free.
    pub fn list_agents(&self) -> (r: Vec<String>)
        ensures
            r@ == self.names(),
    {
        let mut r: Vec<String> = Vec::new();
        let n = self.agents.len();
        let mut i: usize = 0;
        while i < n
            invariant
                i <= n,
                n == self.agents@.len(),
                r@.len() == i,
                forall|j: int| 0 <= j < i ==> #[trigger] r@[j] == self.agents@[j].name,
            decreases n - i,
        {
            r.push(self.agents[i].name.clone());
            i = i + 1;
        }
        proof {
            assert(r@ =~= self.names());
        }
        r
    }

    fn find_agent(&self, name: &String) -> (r: Option<usize>)
        requires
            self.wf(),
        ensures
            match r {
                Some(i) => {
                    &&& i < self.agents@.len()
                    &&& self.agents@[i as int].name@ == name@
                    &&& self.has_agent(name@)
                    &&& self.agent_idx(name@) == i
                },
                None => !self.has_agent(name@),
            },
    {
        let n = self.agents.len();
        let mut i: usize = 0;
        while i < n
            invariant
                self.wf(),
                i <= n,
                n == self.agents@.len(),
                forall|j: int| 0 <= j < i ==> (#[trigger] self.agents@[j]).name@ != name@,
            decreases n - i,
        {
            if self.agents[i].name == *name {
                proof {
                    self.lemma_agent_idx(name@, i as int);
                }
                return Some(i);
            }
            i = i + 1;
        }
        None
    }

    /// Decides how a session for `agent_name` comes to be, spawning at
    /// most once: the first creation for an unspawned agent gets the
    /// spawn action and moves the agent to `Spawning`; every concurrent
    /// one awaits that same spawn; with the process already running the
    /// caller goes straight to the protocol. Fails only for a name that
    /// is not configured.
    pub fn begin_create_session(&mut self, agent_name: &String) -> (r: Result<
        CreateSessionAction,
        ServiceError,
    >)
        requires
            old(self).wf(),
        ensures
            final(self).wf(),
            final(self).sessions() == old(self).sessions(),
            final(self).names() == old(self).names(),
            r is Ok <==> old(self).has_agent(agent_name@),
            !old(self).has_agent(agent_name@) ==> r == Err::<CreateSessionAction, ServiceError>(
                ServiceError::AgentNotFound,
            ) && *final(self) == *old(self),
            // the spawn action goes out exactly once: only to the caller
            // that finds the agent neither spawning nor running
            (r matches Ok(a) && a is SpawnProcess) <==> (old(self).has_agent(agent_name@)
                && old(self).state_of(agent_name@) != AgentState::Spawning && old(
                self,
            ).state_of(agent_name@) != AgentState::Running),
            r matches Ok(CreateSessionAction::SpawnProcess { config }) ==> config.same_launch(
                &old(self).config_of(agent_name@),
            ) && final(self).state_of(agent_name@) == AgentState::Spawning,
            old(self).has_agent(agent_name@) && old(self).state_of(agent_name@)
                == AgentState::Spawning ==> r == Ok::<CreateSessionAction, ServiceError>(
                CreateSessionAction::AwaitSpawn,
            ) && *final(self) == *old(self),
            old(self).has_agent(agent_name@) && old(self).state_of(agent_name@)
                == AgentState::Running ==> r == Ok::<CreateSessionAction, ServiceError>(
                CreateSessionAction::RequestNewSession,
            ) && *final(self) == *old(self),
            // no other agent moves
            forall|other: Seq<char>| #[trigger]
                final(self).has_agent(other) == old(self).has_agent(other),
            forall|other: Seq<char>|
                old(self).has_agent(other) && other != agent_name@ ==> #[trigger] final(self).state_of(other) == old(self).state_of(other),
    {
        let idx = match self.find_agent(agent_name) {
            None => {
                return Err(ServiceError::AgentNotFound);
            },
            Some(i) => i,
        };
        let state = self.agents[idx].state;
        match state {
            AgentState::Running => Ok(CreateSessionAction::RequestNewSession),
            AgentState::Spawning => Ok(CreateSessionAction::AwaitSpawn),
            _ => {
                let name = self.agents[idx].name.clone();
                let config = self.agents[idx].config.clone();
                let launch = self.agents[idx].config.clone();
                self.agents.set(idx, AgentEntry { name, config, state: AgentState::Spawning });
                proof {
                    self.lemma_state_frame(old(self), idx as int);
                }
                Ok(CreateSessionAction::SpawnProcess { config: launch })
            },
        }
    }

    proof fn lemma_state_frame(&self, prev: &Self, idx: int)
        requires
            prev.wf(),
            0 <= idx < prev.agents@.len(),
            self.agents@.len() == prev.agents@.len(),
            self.sessions@.len() == prev.sessions@.len(),
            forall|j: int|
                0 <= j < prev.sessions@.len() ==> (#[trigger] self.sessions@[j]).agent_name@
                    == prev.sessions@[j].agent_name@ && self.sessions@[j].session_id@
                    == prev.sessions@[j].session_id@,
            forall|i: int|
                0 <= i < prev.agents@.len() ==> (#[trigger] self.agents@[i]).name
                    == prev.agents@[i].name,
            forall|i: int|
                0 <= i < prev.agents@.len() && i != idx ==> (#[trigger] self.agents@[i]).state
                    == prev.agents@[i].state,
        ensures
            self.wf(),
            self.names() == prev.names(),
            forall|other: Seq<char>| #[trigger] self.has_agent(other) == prev.has_agent(other),
            forall|other: Seq<char>|
                prev.has_agent(other) && other != prev.agents@[idx].name@ ==> #[trigger] self
                    .state_of(other) == prev.state_of(other),
            prev.has_agent(prev.agents@[idx].name@),
            self.state_of(prev.agents@[idx].name@) == self.agents@[idx].state,
    {
        assert(self.names() =~= prev.names());
        assert forall|other: Seq<char>| #[trigger] self.has_agent(other) == prev.has_agent(
            other,
        ) by {
            if prev.has_agent(other) {
                let i = prev.agent_idx(other);
                assert(self.agents@[i].name@ == other);
            }
            if self.has_agent(other) {
                let i = self.agent_idx(other);
                assert(prev.agents@[i].name@ == other);
            }
        }
        assert forall|other: Seq<char>|
            prev.has_agent(other) && other != prev.agents@[idx].name@ implies #[trigger] self
            .state_of(other) == prev.state_of(other) by {
            let i = prev.agent_idx(other);
            prev.lemma_agent_idx(other, i);
            self.lemma_agent_idx(other, i);
        }
        prev.lemma_agent_idx(prev.agents@[idx].name@, idx);
        self.lemma_agent_idx(prev.agents@[idx].name@, idx);
    }

    /// Reports how the spawn for `agent_name` ended: success moves the
    /// agent to `Running`, failure to `Stopped`, where the next session
    /// creation may try again. Fails for a name that is not configured or
    /// an agent that was not spawning.
    pub fn complete_spawn(&mut self, agent_name: &String, ok: bool) -> (r: Result<
        (),
        ServiceError,
    >)
        requires
            old(self).wf(),
        ensures
            final(self).wf(),
            final(self).sessions() == old(self).sessions(),
            final(self).names() == old(self).names(),
            r is Ok <==> (old(self).has_agent(agent_name@) && old(self).state_of(agent_name@)
                == AgentState::Spawning),
            !old(self).has_agent(agent_name@) ==> r == Err::<(), ServiceError>(
                ServiceError::AgentNotFound,
            ),
            old(self).has_agent(agent_name@) && old(self).state_of(agent_name@)
                != AgentState::Spawning ==> r == Err::<(), ServiceError>(
                ServiceError::ProtocolError,
            ),
            r is Err ==> *final(self) == *old(self),
            r is Ok && ok ==> final(self).state_of(agent_name@) == AgentState::Running,
            r is Ok && !ok ==> final(self).state_of(agent_name@) == AgentState::Stopped,
            forall|other: Seq<char>| #[trigger]
                final(self).has_agent(other) == old(self).has_agent(other),
            forall|other: Seq<char>|
                old(self).has_agent(other) && other != agent_name@ ==> #[trigger] final(self).state_of(other) == old(self).state_of(other),
    {
        let idx = match self.find_agent(agent_name) {
            None => {
                return Err(ServiceError::AgentNotFound);
            },
            Some(i) => i,
        };
        match self.agents[idx].state {
            AgentState::Spawning => {
                let name = self.agents[idx].name.clone();
                let config = self.agents[idx].config.clone();
                let state = if ok {
                    AgentState::Running
                } else {
                    AgentState::Stopped
                };
                self.agents.set(idx, AgentEntry { name, config, state });
                proof {
                    self.lemma_state_frame(old(self), idx as int);
                }
                Ok(())
            },
            _ => Err(ServiceError::ProtocolError),
        }
    }

    /// Records the session the agent issued over the protocol. The
    /// protocol obliges the agent to issue ids unique within itself, so
    /// every creator gets its own session; an id the agent already hosts
    /// is refused as a protocol error rather than overwriting the
    /// session. Fails likewise for an unconfigured name and for an agent
    /// that is not running.
    pub fn register_session(&mut self, agent_name: &String, session_id: String, now: u64) -> (r:
        Result<SessionRecord, ServiceError>)
        requires
            old(self).wf(),
        ensures
            final(self).wf(),
            final(self).names() == old(self).names(),
            forall|other: Seq<char>| #[trigger]
                final(self).has_agent(other) == old(self).has_agent(other),
            forall|other: Seq<char>|
                old(self).has_agent(other) ==> #[trigger] final(self).state_of(other) == old(
                    self,
                ).state_of(other),
            r is Ok <==> (old(self).has_agent(agent_name@) && old(self).state_of(agent_name@)
                == AgentState::Running && !old(self).has_session(agent_name@, session_id@)),
            !old(self).has_agent(agent_name@) ==> r == Err::<SessionRecord, ServiceError>(
                ServiceError::AgentNotFound,
            ),
            old(self).has_agent(agent_name@) && old(self).state_of(agent_name@)
                != AgentState::Running ==> r == Err::<SessionRecord, ServiceError>(
                ServiceError::ProtocolError,
            ),
            old(self).has_agent(agent_name@) && old(self).state_of(agent_name@)
                == AgentState::Running && old(self).has_session(agent_name@, session_id@) ==> r
                == Err::<SessionRecord, ServiceError>(ServiceError::ProtocolError),
            r is Err ==> *final(self) == *old(self),
            r matches Ok(rec) ==> {
                &&& rec.session_id == session_id
                &&& rec.agent_name@ == agent_name@
                &&& rec.created_at == now
                &&& rec.last_activity == now
                &&& rec.open
                &&& final(self).sessions() == old(self).sessions().push(rec)
                &&& final(self).session_open(agent_name@, session_id@)
            },
    {
        let idx = match self.find_agent(agent_name) {
            None => {
                return Err(ServiceError::AgentNotFound);
            },
            Some(i) => i,
        };
        match self.agents[idx].state {
            AgentState::Running => {
                let n = self.sessions.len();
                let mut i: usize = 0;
                while i < n
                    invariant
                        *self == *old(self),
                        self.wf(),
                        old(self).has_agent(agent_name@),
                        old(self).state_of(agent_name@) == AgentState::Running,
                        i <= n,
                        n == self.sessions@.len(),
                        forall|j: int|
                            0 <= j < i ==> !((#[trigger] self.sessions@[j]).agent_name@
                                == agent_name@ && self.sessions@[j].session_id@ == session_id@),
                    decreases n - i,
                {
                    let same_agent = self.sessions[i].agent_name == *agent_name;
                    let same_sid = self.sessions[i].session_id == session_id;
                    if same_agent && same_sid {
                        proof {
                            self.lemma_session_idx(agent_name@, session_id@, i as int);
                        }
                        return Err(ServiceError::ProtocolError);
                    }
                    i = i + 1;
                }
                proof {
                    if old(self).has_session(agent_name@, session_id@) {
                        let j = choose|j: int|
                            0 <= j < self.sessions().len() && (#[trigger] self.sessions()[
                                j
                            ]).agent_name@ == agent_name@ && self.sessions()[j].session_id@
                                == session_id@;
                        assert(self.sessions@[j].agent_name@ == agent_name@);
                    }
                }
                let rec = SessionRecord {
                    session_id,
                    agent_name: agent_name.clone(),
                    created_at: now,
                    last_activity: now,
                    open: true,
                };
                let result = rec.clone();
                self.sessions.push(rec);
                proof {
                    let k = self.sessions@.len() - 1;
                    self.lemma_session_idx(agent_name@, result.session_id@, k);
                }
                Ok(result)
            },
            _ => Err(ServiceError::ProtocolError),
        }
    }

    /// The lifecycle state of the agent configured under `agent_name`,
    /// `None` for a name that is not configured.
    pub fn agent_state(&self, agent_name: &String) -> (r: Option<AgentState>)
        requires
            self.wf(),
        ensures
            match r {
                Some(state) => self.has_agent(agent_name@) && state == self.state_of(
                    agent_name@,
                ),
                None => !self.has_agent(agent_name@),
            },
    {
        match self.find_agent(agent_name) {
            None => None,
            Some(i) => Some(self.agents[i].state),
        }
    }

    /// A read snapshot of the open sessions hosted by `agent_name`, empty
    /// when the agent has no running process — never an error for an
    /// unspawned or even unconfigured name.
    pub fn list_sessions_for_agent(&self, agent_name: &String) -> (r: Vec<SessionRecord>)
        requires
            self.wf(),
        ensures
            self.has_agent(agent_name@) && self.state_of(agent_name@) == AgentState::Running
                ==> r@ == open_sessions_in(self.sessions(), agent_name@),
            !(self.has_agent(agent_name@) && self.state_of(agent_name@) == AgentState::Running)
                ==> r@.len() == 0,
    {
        let idx = match self.find_agent(agent_name) {
            None => {
                return Vec::new();
            },
            Some(i) => i,
        };
        match self.agents[idx].state {
            AgentState::Running => {
                let mut r: Vec<SessionRecord> = Vec::new();
                let n = self.sessions.len();
                let mut i: usize = 0;
                while i < n
                    invariant
                        i <= n,
                        n == self.sessions@.len(),
                        r@ == open_sessions_in(
                            self.sessions@.subrange(0, i as int),
                            agent_name@,
                        ),
                    decreases n - i,
                {
                    proof {
                        assert(self.sessions@.subrange(0, i + 1).drop_last() =~= self
                            .sessions@.subrange(0, i as int));
                        assert(self.sessions@.subrange(0, i + 1).last() == self.sessions@[
                            i as int
                        ]);
                    }
                    let matching = self.sessions[i].agent_name == *agent_name;
                    if matching && self.sessions[i].open {
                        r.push(self.sessions[i].clone());
                    }
                    i = i + 1;
                }
                proof {
                    assert(self.sessions@.subrange(0, n as int) =~= self.sessions@);
                }
                r
            },
            _ => Vec::new(),
        }
    }

    /// Handles an unexpected subprocess exit: the agent becomes `Crashed`
    /// (eligible for respawn on the next session creation), every open
    /// session it hosts is marked closed, and one synthetic failure update
    /// per such session comes back for the caller to publish on the
    /// session update bus. A single agent's crash touches no other agent's
    /// sessions.
    pub fn handle_process_exit(&mut self, agent_name: &String) -> (r: Result<
        Vec<SessionUpdateEvent>,
        ServiceError,
    >)
        requires
            old(self).wf(),
        ensures
            final(self).wf(),
            final(self).names() == old(self).names(),
            forall|other: Seq<char>| #[trigger]
                final(self).has_agent(other) == old(self).has_agent(other),
            r is Ok <==> old(self).has_agent(agent_name@),
            r is Err ==> *final(self) == *old(self) && r == Err::<
                Vec<SessionUpdateEvent>,
                ServiceError,
            >(ServiceError::AgentNotFound),
            r is Ok ==> final(self).state_of(agent_name@) == AgentState::Crashed,
            forall|other: Seq<char>|
                old(self).has_agent(other) && other != agent_name@ ==> #[trigger] final(self).state_of(other) == old(self).state_of(other),
            r is Ok ==> final(self).sessions().len() == old(self).sessions().len(),
            r is Ok ==> forall|j: int|
                0 <= j < old(self).sessions().len() ==> #[trigger] final(self).sessions()[j]
                    == (if old(self).sessions()[j].agent_name@ == agent_name@ && old(
                    self,
                ).sessions()[j].open {
                    closed_session(old(self).sessions()[j])
                } else {
                    old(self).sessions()[j]
                }),
            // no session of the crashed agent stays open
            r is Ok ==> forall|sid: Seq<char>| !final(self).session_open(agent_name@, sid),
            // one synthetic failure update per formerly open session, in order
            r matches Ok(evs) ==> evs@.len() == open_sessions_in(
                old(self).sessions(),
                agent_name@,
            ).len() && forall|k: int|
                0 <= k < evs@.len() ==> is_crash_event(
                    #[trigger] evs@[k],
                    open_sessions_in(old(self).sessions(), agent_name@)[k],
                ),
    {
        let idx = match self.find_agent(agent_name) {
            None => {
                return Err(ServiceError::AgentNotFound);
            },
            Some(i) => i,
        };
        let mut evs: Vec<SessionUpdateEvent> = Vec::new();
        let n = self.sessions.len();
        let mut i: usize = 0;
        while i < n
            invariant
                old(self).wf(),
                i <= n,
                n == self.sessions@.len(),
                self.agents@ == old(self).agents@,
                self.sessions@.len() == old(self).sessions@.len(),
                forall|j: int|
                    0 <= j < i ==> #[trigger] self.sessions@[j] == (
                    if old(self).sessions@[j].agent_name@ == agent_name@ && old(
                        self,
                    ).sessions@[j].open {
                        closed_session(old(self).sessions@[j])
                    } else {
                        old(self).sessions@[j]
                    }),
                forall|j: int|
                    i <= j < n ==> #[trigger] self.sessions@[j] == old(self).sessions@[j],
                evs@.len() == open_sessions_in(
                    old(self).sessions@.subrange(0, i as int),
                    agent_name@,
                ).len(),
                forall|k: int|
                    0 <= k < evs@.len() ==> is_crash_event(
                        #[trigger] evs@[k],
                        open_sessions_in(
                            old(self).sessions@.subrange(0, i as int),
                            agent_name@,
                        )[k],
                    ),
            decreases n - i,
        {
            proof {
                assert(old(self).sessions@.subrange(0, i + 1).drop_last() =~= old(
                    self,
                ).sessions@.subrange(0, i as int));
                assert(old(self).sessions@.subrange(0, i + 1).last() == old(self).sessions@[
                    i as int
                ]);
            }
            let is_mine = self.sessions[i].agent_name == *agent_name;
            if is_mine && self.sessions[i].open {
                let rec = self.sessions[i].clone();
                let sid = rec.session_id.clone();
                self.sessions.set(i, SessionRecord { open: false, ..rec });
                evs.push(SessionUpdateEvent {
                    session_id: sid,
                    update: SessionUpdate::SessionFailed {
                        reason: String::from_str("agent process exited"),
                    },
                });
            }
            i = i + 1;
        }
        proof {
            assert(old(self).sessions@.subrange(0, n as int) =~= old(self).sessions@);
        }
        let name = self.agents[idx].name.clone();
        let config = self.agents[idx].config.clone();
        self.agents.set(idx, AgentEntry { name, config, state: AgentState::Crashed });
        proof {
            self.lemma_state_frame(old(self), idx as int);
            assert forall|sid: Seq<char>| !self.session_open(agent_name@, sid) by {
                if self.session_open(agent_name@, sid) {
                    let j = self.session_idx(agent_name@, sid);
                    assert(self.sessions@[j] == (
                    if old(self).sessions@[j].agent_name@ == agent_name@ && old(
                        self,
                    ).sessions@[j].open {
                        closed_session(old(self).sessions@[j])
                    } else {
                        old(self).sessions@[j]
                    }));
                }
            }
        }
        Ok(evs)
    }

    /// Explicitly closes one session. Fails with `AgentNotFound` for an
    /// unconfigured name, `SessionMismatch` when the session lives under a
    /// different agent, and `SessionClosed` when it does not exist or was
    /// closed already.
    pub fn close_session(&mut self, agent_name: &String, session_id: &String, now: u64) -> (r:
        Result<(), ServiceError>)
        requires
            old(self).wf(),
        ensures
            final(self).wf(),
            final(self).names() == old(self).names(),
            forall|other: Seq<char>| #[trigger]
                final(self).has_agent(other) == old(self).has_agent(other),
            forall|other: Seq<char>|
                old(self).has_agent(other) ==> #[trigger] final(self).state_of(other) == old(
                    self,
                ).state_of(other),
            r is Ok <==> (old(self).has_agent(agent_name@) && old(self).session_open(
                agent_name@,
                session_id@,
            )),
            !old(self).has_agent(agent_name@) ==> r == Err::<(), ServiceError>(
                ServiceError::AgentNotFound,
            ),
            old(self).has_agent(agent_name@) && !old(self).has_session(
                agent_name@,
                session_id@,
            ) && old(self).session_elsewhere(session_id@, agent_name@) ==> r == Err::<
                (),
                ServiceError,
            >(ServiceError::SessionMismatch),
            old(self).has_agent(agent_name@) && !old(self).has_session(
                agent_name@,
                session_id@,
            ) && !old(self).session_elsewhere(session_id@, agent_name@) ==> r == Err::<
                (),
                ServiceError,
            >(ServiceError::SessionClosed),
            old(self).has_agent(agent_name@) && old(self).has_session(agent_name@, session_id@)
                && !old(self).session_open(agent_name@, session_id@) ==> r == Err::<
                (),
                ServiceError,
            >(ServiceError::SessionClosed),
            r is Err ==> *final(self) == *old(self),
            r is Ok ==> !final(self).session_open(agent_name@, session_id@) && final(self).sessions() == old(self).sessions().update(
                old(self).session_idx(agent_name@, session_id@),
                SessionRecord {
                    open: false,
                    last_activity: now,
                    ..old(self).sessions()[old(self).session_idx(agent_name@, session_id@)]
                },
            ),
    {
        if self.find_agent(agent_name).is_none() {
            return Err(ServiceError::AgentNotFound);
        }
        match self.locate_session(agent_name, session_id) {
            SessionLookup::OpenHere(i) => {
                let rec = self.sessions[i].clone();
                proof {
                    old(self).lemma_session_idx(agent_name@, session_id@, i as int);
                }
                self.sessions.set(i, SessionRecord { open: false, last_activity: now, ..rec });
                proof {
                    assert forall|other: Seq<char>|
                        old(self).has_agent(other) implies #[trigger] final(self).state_of(
                        other,
                    ) == old(self).state_of(other) by {
                        let a = old(self).agent_idx(other);
                        old(self).lemma_agent_idx(other, a);
                        self.lemma_agent_idx(other, a);
                    }
                    if self.session_open(agent_name@, session_id@) {
                        let j = self.session_idx(agent_name@, session_id@);
                        self.lemma_session_idx(agent_name@, session_id@, i as int);
                    }
                }
                Ok(())
            },
            SessionLookup::ClosedHere(_) => Err(ServiceError::SessionClosed),
            SessionLookup::Elsewhere => Err(ServiceError::SessionMismatch),
            SessionLookup::Nowhere => Err(ServiceError::SessionClosed),
        }
    }

    /// Validates that a message for `session_id` may go out through
    /// `agent_name` and records the send as session activity. `Ok` means
    /// the transport write may proceed; the errors mirror the session
    /// router's taxonomy: `AgentNotFound` for an unconfigured name,
    /// `SessionMismatch` when the session lives under a different agent,
    /// `SessionClosed` when it does not exist or is no longer active.
    pub fn record_send(&mut self, agent_name: &String, session_id: &String, now: u64) -> (r:
        Result<(), ServiceError>)
        requires
            old(self).wf(),
        ensures
            final(self).wf(),
            final(self).names() == old(self).names(),
            forall|other: Seq<char>| #[trigger]
                final(self).has_agent(other) == old(self).has_agent(other),
            forall|other: Seq<char>|
                old(self).has_agent(other) ==> #[trigger] final(self).state_of(other) == old(
                    self,
                ).state_of(other),
            r is Ok <==> (old(self).has_agent(agent_name@) && old(self).session_open(
                agent_name@,
                session_id@,
            )),
            !old(self).has_agent(agent_name@) ==> r == Err::<(), ServiceError>(
                ServiceError::AgentNotFound,
            ),
            old(self).has_agent(agent_name@) && !old(self).has_session(
                agent_name@,
                session_id@,
            ) && old(self).session_elsewhere(session_id@, agent_name@) ==> r == Err::<
                (),
                ServiceError,
            >(ServiceError::SessionMismatch),
            old(self).has_agent(agent_name@) && !old(self).has_session(
                agent_name@,
                session_id@,
            ) && !old(self).session_elsewhere(session_id@, agent_name@) ==> r == Err::<
                (),
                ServiceError,
            >(ServiceError::SessionClosed),
            old(self).has_agent(agent_name@) && old(self).has_session(agent_name@, session_id@)
                && !old(self).session_open(agent_name@, session_id@) ==> r == Err::<
                (),
                ServiceError,
            >(ServiceError::SessionClosed),
            r is Err ==> *final(self) == *old(self),
            r is Ok ==> final(self).session_open(agent_name@, session_id@) && final(self).sessions() == old(self).sessions().update(
                old(self).session_idx(agent_name@, session_id@),
                SessionRecord {
                    last_activity: now,
                    ..old(self).sessions()[old(self).session_idx(agent_name@, session_id@)]
                },
            ),
    {
        if self.find_agent(agent_name).is_none() {
            return Err(ServiceError::AgentNotFound);
        }
        match self.locate_session(agent_name, session_id) {
            SessionLookup::OpenHere(i) => {
                let rec = self.sessions[i].clone();
                proof {
                    old(self).lemma_session_idx(agent_name@, session_id@, i as int);
                }
                self.sessions.set(i, SessionRecord { last_activity: now, ..rec });
                proof {
                    assert forall|other: Seq<char>|
                        old(self).has_agent(other) implies #[trigger] final(self).state_of(
                        other,
                    ) == old(self).state_of(other) by {
                        let a = old(self).agent_idx(other);
                        old(self).lemma_agent_idx(other, a);
                        self.lemma_agent_idx(other, a);
                    }
                    self.lemma_session_idx(agent_name@, session_id@, i as int);
                }
                Ok(())
            },
            SessionLookup::ClosedHere(_) => Err(ServiceError::SessionClosed),
            SessionLookup::Elsewhere => Err(ServiceError::SessionMismatch),
            SessionLookup::Nowhere => Err(ServiceError::SessionClosed),
        }
    }

    fn locate_session(&self, agent_name: &String, session_id: &String) -> (r: SessionLookup)
        requires
            self.wf(),
        ensures
            match r {
                SessionLookup::OpenHere(i) => {
                    &&& i < self.sessions@.len()
                    &&& self.sessions@[i as int].agent_name@ == agent_name@
                    &&& self.sessions@[i as int].session_id@ == session_id@
                    &&& self.sessions@[i as int].open
                    &&& self.session_open(agent_name@, session_id@)
                },
                SessionLookup::ClosedHere(i) => {
                    &&& i < self.sessions@.len()
                    &&& self.sessions@[i as int].agent_name@ == agent_name@
                    &&& self.sessions@[i as int].session_id@ == session_id@
                    &&& !self.sessions@[i as int].open
                    &&& self.has_session(agent_name@, session_id@)
                    &&& !self.session_open(agent_name@, session_id@)
                },
                SessionLookup::Elsewhere => {
                    &&& !self.has_session(agent_name@, session_id@)
                    &&& self.session_elsewhere(session_id@, agent_name@)
                },
                SessionLookup::Nowhere => {
                    &&& !self.has_session(agent_name@, session_id@)
                    &&& !self.session_elsewhere(session_id@, agent_name@)
                },
            },
    {
        let n = self.sessions.len();
        let mut elsewhere = false;
        let mut i: usize = 0;
        while i < n
            invariant
                self.wf(),
                i <= n,
                n == self.sessions@.len(),
                forall|j: int|
                    0 <= j < i ==> !((#[trigger] self.sessions@[j]).agent_name@ == agent_name@
                        && self.sessions@[j].session_id@ == session_id@),
                elsewhere <==> exists|j: int|
                    0 <= j < i && (#[trigger] self.sessions@[j]).agent_name@ != agent_name@
                        && self.sessions@[j].session_id@ == session_id@,
            decreases n - i,
        {
            let sid_match = self.sessions[i].session_id == *session_id;
            let agent_match = self.sessions[i].agent_name == *agent_name;
            if sid_match && agent_match {
                proof {
                    self.lemma_session_idx(agent_name@, session_id@, i as int);
                }
                if self.sessions[i].open {
                    return SessionLookup::OpenHere(i);
                } else {
                    return SessionLookup::ClosedHere(i);
                }
            }
            if sid_match && !agent_match {
                elsewhere = true;
            }
            i = i + 1;
        }
        proof {
            if self.has_session(agent_name@, session_id@) {
                let j = choose|j: int|
                    0 <= j < self.sessions().len() && (#[trigger] self.sessions()[
                        j
                    ]).agent_name@ == agent_name@ && self.sessions()[j].session_id@
                        == session_id@;
                assert(self.sessions@[j].agent_name@ == agent_name@);
            }
            if self.session_elsewhere(session_id@, agent_name@) {
                let j = choose|j: int|
                    0 <= j < self.sessions().len() && (#[trigger] self.sessions()[
                        j
                    ]).agent_name@ != agent_name@ && self.sessions()[j].session_id@
                        == session_id@;
                assert(self.sessions@[j].session_id@ == session_id@);
            }
            if exists|j: int|
                0 <= j < self.sessions@.len() && (#[trigger] self.sessions@[j]).agent_name@
                    != agent_name@ && self.sessions@[j].session_id@ == session_id@ {
                let j = choose|j: int|
                    0 <= j < self.sessions@.len() && (#[trigger] self.sessions@[
                        j
                    ]).agent_name@ != agent_name@ && self.sessions@[j].session_id@
                        == session_id@;
                assert(self.sessions()[j].session_id@ == session_id@);
            }
        }
        if elsewhere {
            SessionLookup::Elsewhere
        } else {
            SessionLookup::Nowhere
        }
    }
}

enum SessionLookup {
    OpenHere(usize),
    ClosedHere(usize),
    Elsewhere,
    Nowhere,
}

/// What a session creator that awaited another caller's spawn concludes
/// from the agent's state once that spawn completed: with the process
/// running it goes on to request its session over the protocol; any other
/// state means the subprocess could not start.
pub fn await_spawn_outcome(state: AgentState) -> (r: Result<(), ServiceError>)
    ensures
        state == AgentState::Running <==> r is Ok,
        state != AgentState::Running ==> r == Err::<(), ServiceError>(
            ServiceError::ProcessSpawnFailed,
        ),
{
    match state {
        AgentState::Running => Ok(()),
        _ => Err(ServiceError::ProcessSpawnFailed),
    }
}

/// A session record with its open flag cleared.
pub open spec fn closed_session(s: SessionRecord) -> SessionRecord {
    SessionRecord { open: false, ..s }
}

} // verus!
