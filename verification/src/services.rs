use vstd::prelude::*;

use crate::agents::{AgentManager, SessionRecord};
use crate::bus::EventBus;
use crate::config::NamedAgentConfig;
use crate::errors::ServiceError;
use crate::events::{
    PermissionOption, PermissionRequestEvent, SessionUpdate, SessionUpdateEvent,
    WorkspaceUpdateEvent,
};
use crate::permissions::{Decision, PermissionStore};
use crate::workspace::{Workspace, WorkspaceStore, WorkspaceTask};

verus! {

/// The session created when the user picks an agent on the welcome panel,
/// remembered until a task adopts it.
#[derive(Debug)]
pub struct WelcomeSession {
    /// The created session.
    pub session_id: String,
    /// The agent hosting it.
    pub agent_name: String,
}

impl Clone for WelcomeSession {
    fn clone(&self) -> (res: Self)
        ensures
            res == *self,
    {
        WelcomeSession {
            session_id: self.session_id.clone(),
            agent_name: self.agent_name.clone(),
        }
    }
}

/// A validated outbound message: what the caller hands to the protocol
/// transport after the session router accepted the send.
#[derive(Debug)]
pub struct OutboundMessage {
    /// The agent whose stdin carries the message.
    pub agent_name: String,
    /// The session the message belongs to.
    pub session_id: String,
    /// The user-authored text.
    pub text: String,
}

/// The application context: one instance composes the agent process
/// manager, the permission correlator, the workspace store and the three
/// event buses, and offers the composite operations the UI calls. It is
/// built once at startup and passed by reference to whatever needs it.
///
/// The process lifecycle steps that need real I/O (spawning, the
/// handshake, transport writes) are driven from outside through the
/// `agents` manager; everything here is the decision and distribution
/// layer.
pub struct AppCore {
    /// Owns agent subprocess state and session records.
    pub agents: AgentManager,
    /// Owns the pending permission request table.
    pub permissions: PermissionStore,
    /// Owns the persisted workspace/task collection.
    pub workspaces: WorkspaceStore,
    /// Fans session updates out to UI subscribers.
    pub session_bus: EventBus<SessionUpdateEvent>,
    /// Fans permission requests out to UI subscribers.
    pub permission_bus: EventBus<PermissionRequestEvent>,
    /// Fans workspace mutations out to UI subscribers.
    pub workspace_bus: EventBus<WorkspaceUpdateEvent>,
    /// The remembered welcome session, if one is set.
    pub welcome_session: Option<WelcomeSession>,
}

impl AppCore {
    /// Every component is well formed.
    pub open spec fn wf(&self) -> bool {
        &&& self.agents.wf()
        &&& self.permissions.wf()
        &&& self.workspaces.wf()
        &&& self.session_bus.wf()
        &&& self.permission_bus.wf()
        &&& self.workspace_bus.wf()
    }

    /// The remembered welcome session, if one is set.
    pub open spec fn spec_welcome_session(&self) -> Option<WelcomeSession> {
        self.welcome_session
    }

    /// Builds the context: the workspace store recovers from the loaded
    /// persisted document (falling back to empty on a missing or corrupt
    /// one), the agents start unspawned, the buses start empty.
    pub fn new(
        configs: Vec<NamedAgentConfig>,
        loaded: Option<(Vec<Workspace>, Vec<WorkspaceTask>)>,
    ) -> (core: Self)
        ensures
            core.wf(),
            core.workspaces.can_add(),
            core.permissions.can_issue(),
            core.agents.sessions() == Seq::<SessionRecord>::empty(),
            loaded is None ==> core.workspaces.workspaces().len() == 0
                && core.workspaces.tasks().len() == 0,
            core.session_bus.log() == Seq::<SessionUpdateEvent>::empty(),
            core.permission_bus.log() == Seq::<PermissionRequestEvent>::empty(),
            core.workspace_bus.log() == Seq::<WorkspaceUpdateEvent>::empty(),
            core.session_bus.sub_count() == 0,
            core.permission_bus.sub_count() == 0,
            core.workspace_bus.sub_count() == 0,
            core.spec_welcome_session() is None,
            forall|name: Seq<char>| #[trigger]
                core.agents.has_agent(name) <==> exists|i: int|
                    0 <= i < configs@.len() && (#[trigger] configs@[i]).name@ == name,
            forall|name: Seq<char>|
                core.agents.has_agent(name) ==> #[trigger] core.agents.state_of(name)
                    == crate::agents::AgentState::Configured,
    {
        AppCore {
            agents: AgentManager::new(configs),
            permissions: PermissionStore::new(),
            workspaces: WorkspaceStore::recover(loaded),
            session_bus: EventBus::new(),
            permission_bus: EventBus::new(),
            workspace_bus: EventBus::new(),
            welcome_session: None,
        }
    }

    /// Remembers the session created from the welcome panel.
    pub fn set_welcome_session(&mut self, session: WelcomeSession)
        ensures
            final(self).spec_welcome_session() == Some(session),
            final(self).agents == old(self).agents,
            final(self).permissions == old(self).permissions,
            final(self).workspaces == old(self).workspaces,
            final(self).session_bus == old(self).session_bus,
            final(self).permission_bus == old(self).permission_bus,
            final(self).workspace_bus == old(self).workspace_bus,
    {
        self.welcome_session = Some(session);
    }

    /// The remembered welcome session, if any.
    pub fn welcome_session(&self) -> (r: Option<&WelcomeSession>)
        ensures
            match r {
                Some(w) => self.spec_welcome_session() == Some(*w),
                None => self.spec_welcome_session() is None,
            },
    {
        self.welcome_session.as_ref()
    }

    /// Forgets the welcome session.
    pub fn clear_welcome_session(&mut self)
        ensures
            final(self).spec_welcome_session() is None,
            final(self).agents == old(self).agents,
            final(self).permissions == old(self).permissions,
            final(self).workspaces == old(self).workspaces,
            final(self).session_bus == old(self).session_bus,
            final(self).permission_bus == old(self).permission_bus,
            final(self).workspace_bus == old(self).workspace_bus,
    {
        self.welcome_session = None;
    }

    /// The currently configured agent names; side-effect-free.
    pub fn list_agents(&self) -> (r: Vec<String>)
        ensures
            r@ == self.agents.names(),
    {
        self.agents.list_agents()
    }

    /// A read snapshot of the open sessions hosted by `agent_name`,
    /// empty when the agent has no running process; never an error.
    pub fn list_sessions_for_agent(&self, agent_name: &String) -> (r: Vec<SessionRecord>)
        requires
            self.wf(),
        ensures
            self.agents.has_agent(agent_name@) && self.agents.state_of(agent_name@)
                == crate::agents::AgentState::Running ==> r@ == crate::agents::open_sessions_in(
                self.agents.sessions(),
                agent_name@,
            ),
            !(self.agents.has_agent(agent_name@) && self.agents.state_of(agent_name@)
                == crate::agents::AgentState::Running) ==> r@.len() == 0,
    {
        self.agents.list_sessions_for_agent(agent_name)
    }

    /// A read snapshot of the workspaces.
    pub fn list_workspaces(&self) -> (r: Vec<Workspace>)
        ensures
            r@ == self.workspaces.workspaces(),
    {
        self.workspaces.list_workspaces()
    }

    /// A read snapshot of all tasks.
    pub fn get_all_tasks(&self) -> (r: Vec<WorkspaceTask>)
        ensures
            r@ == self.workspaces.tasks(),
    {
        self.workspaces.get_all_tasks()
    }

    /// Validates a user-authored message for a session and records the
    /// send as activity; `Ok` carries what the transport must write.
    /// A transport that later rejects the write reports that failure
    /// itself (`TransportError`); validation never produces it.
    ///
    /// The streamed reply arrives on the session update bus, not from
    /// this call: a caller that wants the first chunk must subscribe
    /// before sending; nothing here enforces that ordering.
    pub fn send_message_to_session(
        &mut self,
        agent_name: &String,
        session_id: &String,
        text: String,
        now: u64,
    ) -> (r: Result<OutboundMessage, ServiceError>)
        requires
            old(self).wf(),
        ensures
            final(self).wf(),
            r is Ok <==> (old(self).agents.has_agent(agent_name@) && old(
                self,
            ).agents.session_open(agent_name@, session_id@)),
            r matches Err(e) ==> Err::<(), ServiceError>(e) == (if !old(self).agents.has_agent(
                agent_name@,
            ) {
                Err::<(), ServiceError>(ServiceError::AgentNotFound)
            } else if !old(self).agents.has_session(agent_name@, session_id@) && old(
                self,
            ).agents.session_elsewhere(session_id@, agent_name@) {
                Err::<(), ServiceError>(ServiceError::SessionMismatch)
            } else {
                Err::<(), ServiceError>(ServiceError::SessionClosed)
            }),
            r matches Ok(m) ==> m.agent_name@ == agent_name@ && m.session_id@ == session_id@
                && m.text == text,
            r is Err ==> *final(self) == *old(self),
            final(self).permissions == old(self).permissions,
            final(self).workspaces == old(self).workspaces,
            final(self).session_bus == old(self).session_bus,
            final(self).permission_bus == old(self).permission_bus,
            final(self).workspace_bus == old(self).workspace_bus,
            final(self).welcome_session == old(self).welcome_session,
    {
        match self.agents.record_send(agent_name, session_id, now) {
            Err(e) => Err(e),
            Ok(()) => Ok(OutboundMessage {
                agent_name: agent_name.clone(),
                session_id: session_id.clone(),
                text,
            }),
        }
    }

    /// Multiplexes one update arriving from a subprocess onto the session
    /// update bus: every subscriber will observe it after everything
    /// published before it.
    pub fn route_session_update(&mut self, session_id: &String, update: SessionUpdate) -> (ev:
        SessionUpdateEvent)
        requires
            old(self).wf(),
        ensures
            final(self).wf(),
            ev.session_id@ == session_id@,
            ev.update == update,
            final(self).session_bus.log() == old(self).session_bus.log().push(ev),
            final(self).session_bus.sub_count() == old(self).session_bus.sub_count(),
            forall|u: usize|
                old(self).session_bus.is_token(u) ==> #[trigger] final(self).session_bus.pending(u) == old(self).session_bus.pending(u).push(ev),
            final(self).agents == old(self).agents,
            final(self).permissions == old(self).permissions,
            final(self).workspaces == old(self).workspaces,
            final(self).permission_bus == old(self).permission_bus,
            final(self).workspace_bus == old(self).workspace_bus,
            final(self).welcome_session == old(self).welcome_session,
    {
        let ev = SessionUpdateEvent { session_id: session_id.clone(), update };
        let copy = ev.clone();
        self.session_bus.publish(ev);
        copy
    }

    /// Opens a pending permission request for a tool call of
    /// `session_id` offering `options`, publishes the request on the
    /// permission bus, and returns the issued request id.
    pub fn open_permission_request(
        &mut self,
        session_id: String,
        options: Vec<PermissionOption>,
    ) -> (request_id: u64)
        requires
            old(self).wf(),
            old(self).permissions.can_issue(),
        ensures
            final(self).wf(),
            !old(self).permissions.has_request(request_id),
            final(self).permissions.is_pending(request_id),
            final(self).permissions.session_of(request_id) == session_id@,
            final(self).permission_bus.log().len() == old(self).permission_bus.log().len() + 1,
            final(self).permission_bus.log().last().request_id == request_id,
            final(self).permission_bus.log().last().session_id@ == session_id@,
            final(self).permission_bus.log().last().options@ == options@,
            final(self).agents == old(self).agents,
            final(self).workspaces == old(self).workspaces,
            final(self).session_bus == old(self).session_bus,
            final(self).workspace_bus == old(self).workspace_bus,
            final(self).welcome_session == old(self).welcome_session,
    {
        let ev = self.permissions.open_request(session_id, options);
        let request_id = ev.request_id;
        self.permission_bus.publish(ev);
        request_id
    }

    /// Completes the pending permission request `request_id` exactly
    /// once: a second resolution fails with `AlreadyResolved` and leaves
    /// the first one's effect in place; an unknown id fails with
    /// `UnknownRequest`. The awaiting protocol handler reads the stored
    /// decision back through `permissions`.
    pub fn resolve_permission(&mut self, request_id: u64, choice: Decision) -> (r: Result<
        (),
        ServiceError,
    >)
        requires
            old(self).wf(),
        ensures
            final(self).wf(),
            r is Ok <==> old(self).permissions.is_pending(request_id),
            !old(self).permissions.has_request(request_id) ==> r == Err::<(), ServiceError>(
                ServiceError::UnknownRequest,
            ),
            old(self).permissions.is_resolved(request_id) ==> r == Err::<(), ServiceError>(
                ServiceError::AlreadyResolved,
            ),
            r is Err ==> *final(self) == *old(self),
            r is Ok ==> final(self).permissions.resolution_of(request_id) == Some(choice),
            forall|id: u64|
                old(self).permissions.has_request(id) && id != request_id ==> #[trigger] final(self).permissions.resolution_of(id) == old(self).permissions.resolution_of(id),
            final(self).agents == old(self).agents,
            final(self).workspaces == old(self).workspaces,
            final(self).session_bus == old(self).session_bus,
            final(self).permission_bus == old(self).permission_bus,
            final(self).workspace_bus == old(self).workspace_bus,
            final(self).welcome_session == old(self).welcome_session,
    {
        self.permissions.resolve(request_id, choice)
    }

    /// Closes a session and resolves every permission request still
    /// pending for it with the default deny outcome, so no awaiting
    /// handler is left pending forever; the denied request ids come back
    /// so the caller can answer the agent. The session errors mirror the
    /// router's: `AgentNotFound`, `SessionMismatch`, `SessionClosed`.
    pub fn close_session(&mut self, agent_name: &String, session_id: &String, now: u64) -> (r:
        Result<Vec<u64>, ServiceError>)
        requires
            old(self).wf(),
        ensures
            final(self).wf(),
            r is Ok <==> (old(self).agents.has_agent(agent_name@) && old(
                self,
            ).agents.session_open(agent_name@, session_id@)),
            r is Err ==> *final(self) == *old(self),
            r is Ok ==> !final(self).agents.session_open(agent_name@, session_id@),
            // failure safety: nothing of this session stays pending
            r is Ok ==> forall|id: u64|
                final(self).permissions.is_pending(id) ==> !(final(self).permissions.session_of(id) == session_id@),
            r is Ok ==> forall|id: u64|
                old(self).permissions.is_pending(id) && old(self).permissions.session_of(id)
                    == session_id@ ==> #[trigger] final(self).permissions.resolution_of(id)
                    == Some(Decision::Denied),
            r matches Ok(denied) ==> forall|id: u64| #[trigger]
                denied@.contains(id) <==> (old(self).permissions.is_pending(id) && old(
                    self,
                ).permissions.session_of(id) == session_id@),
            // only the one session record moves: it is marked closed
            r is Ok ==> final(self).agents.sessions() == old(self).agents.sessions().update(
                old(self).agents.session_idx(agent_name@, session_id@),
                (SessionRecord {
                    open: false,
                    last_activity: now,
                    ..old(self).agents.sessions()[old(self).agents.session_idx(
                        agent_name@,
                        session_id@,
                    )]
                }),
            ),
            final(self).session_bus == old(self).session_bus,
            final(self).workspaces == old(self).workspaces,
            final(self).permission_bus == old(self).permission_bus,
            final(self).workspace_bus == old(self).workspace_bus,
            final(self).welcome_session == old(self).welcome_session,
    {
        match self.agents.close_session(agent_name, session_id, now) {
            Err(e) => Err(e),
            Ok(()) => {
                let denied = self.permissions.cancel_session(session_id);
                Ok(denied)
            },
        }
    }

    /// Absorbs an unexpected subprocess exit: marks the agent crashed,
    /// closes its sessions, publishes one synthetic failure update per
    /// formerly open session on the session update bus, and denies every
    /// permission request those sessions still had pending. A single
    /// agent's crash never touches another agent's sessions.
    pub fn handle_agent_exit(&mut self, agent_name: &String) -> (r: Result<usize, ServiceError>)
        requires
            old(self).wf(),
        ensures
            final(self).wf(),
            r is Ok <==> old(self).agents.has_agent(agent_name@),
            r is Err ==> *final(self) == *old(self) && r == Err::<usize, ServiceError>(
                ServiceError::AgentNotFound,
            ),
            r matches Ok(n) ==> {
                &&& n == crate::agents::open_sessions_in(
                    old(self).agents.sessions(),
                    agent_name@,
                ).len()
                &&& forall|id: u64, k: int|
                    0 <= k < n && old(self).permissions.is_pending(id) && old(
                        self,
                    ).permissions.session_of(id) == crate::agents::open_sessions_in(
                        old(self).agents.sessions(),
                        agent_name@,
                    )[k].session_id@ ==> final(self).permissions.resolution_of(id) == Some(
                        Decision::Denied,
                    )
                &&& final(self).agents.state_of(agent_name@)
                    == crate::agents::AgentState::Crashed
                &&& forall|sid: Seq<char>| !final(self).agents.session_open(agent_name@, sid)
                &&& final(self).session_bus.log().len() == old(self).session_bus.log().len()
                    + n
                &&& forall|k: int|
                    0 <= k < n ==> crate::agents::is_crash_event(
                        #[trigger] final(self).session_bus.log()[old(
                            self,
                        ).session_bus.log().len() + k],
                        crate::agents::open_sessions_in(
                            old(self).agents.sessions(),
                            agent_name@,
                        )[k],
                    )
            },
            final(self).workspaces == old(self).workspaces,
    {
        let evs = match self.agents.handle_process_exit(agent_name) {
            Err(e) => {
                return Err(e);
            },
            Ok(evs) => evs,
        };
        let n = evs.len();
        let ghost crashed = crate::agents::open_sessions_in(
            old(self).agents.sessions(),
            agent_name@,
        );
        let ghost base = self.session_bus.log().len();
        let mut published: usize = 0;
        while published < n
            invariant
                self.agents.wf(),
                self.permissions.wf(),
                self.workspaces.wf(),
                self.permission_bus.wf(),
                self.workspace_bus.wf(),
                self.session_bus.wf(),
                old(self).agents.has_agent(agent_name@),
                self.agents.state_of(agent_name@) == crate::agents::AgentState::Crashed,
                forall|sid: Seq<char>| !self.agents.session_open(agent_name@, sid),
                self.agents.sessions().len() == old(self).agents.sessions().len(),
                forall|j: int|
                    0 <= j < old(self).agents.sessions().len() ==> #[trigger] self
                        .agents.sessions()[j] == (if old(self).agents.sessions()[j].agent_name@
                        == agent_name@ && old(self).agents.sessions()[j].open {
                        crate::agents::closed_session(old(self).agents.sessions()[j])
                    } else {
                        old(self).agents.sessions()[j]
                    }),
                forall|other: Seq<char>| #[trigger]
                    self.agents.has_agent(other) == old(self).agents.has_agent(other),
                forall|other: Seq<char>|
                    old(self).agents.has_agent(other) && other != agent_name@
                        ==> #[trigger] self.agents.state_of(other) == old(
                        self,
                    ).agents.state_of(other),
                self.workspaces == old(self).workspaces,
                self.workspace_bus == old(self).workspace_bus,
                self.permission_bus == old(self).permission_bus,
                self.welcome_session == old(self).welcome_session,
                published <= n,
                n == crashed.len(),
                crashed == crate::agents::open_sessions_in(
                    old(self).agents.sessions(),
                    agent_name@,
                ),
                evs@.len() == n,
                forall|k: int|
                    0 <= k < n ==> crate::agents::is_crash_event(#[trigger] evs@[k], crashed[k]),
                self.session_bus.log().len() == base + published,
                base == old(self).session_bus.log().len(),
                self.session_bus.log().subrange(0, base as int) == old(self).session_bus.log(),
                forall|k: int|
                    0 <= k < published ==> crate::agents::is_crash_event(
                        #[trigger] self.session_bus.log()[base + k],
                        crashed[k],
                    ),
                forall|id: u64| #[trigger]
                    self.permissions.has_request(id) == old(self).permissions.has_request(id),
                forall|id: u64|
                    old(self).permissions.has_request(id) ==> #[trigger] self
                        .permissions.session_of(id) == old(self).permissions.session_of(id),
                forall|id: u64|
                    old(self).permissions.has_request(id) ==> #[trigger] self
                        .permissions.resolution_of(id) == old(self).permissions.resolution_of(
                        id,
                    ) || (old(self).permissions.is_pending(id) && self
                        .permissions.resolution_of(id) == Some(Decision::Denied)),
                forall|id: u64, k: int|
                    #![trigger self.permissions.resolution_of(id), crashed[k]]
                    0 <= k < published && old(self).permissions.is_pending(id) && old(
                        self,
                    ).permissions.session_of(id) == crashed[k].session_id@ ==> self
                        .permissions.resolution_of(id) == Some(Decision::Denied),
            decreases n - published,
        {
            let ghost pre_log = self.session_bus.log();
            let ev = evs[published].clone();
            proof {
                crate::events::lemma_session_event_cloned_eq(evs@[published as int], ev);
                assert(crate::agents::is_crash_event(ev, crashed[published as int]));
            }
            let sid = ev.session_id.clone();
            self.session_bus.publish(ev);
            let _ = self.permissions.cancel_session(&sid);
            published = published + 1;
            proof {
                assert(sid@ == crashed[published - 1].session_id@);
                assert(self.session_bus.log().subrange(0, base as int) =~= pre_log.subrange(
                    0,
                    base as int,
                ));
            }
        }
        Ok(n)
    }

    /// Adds a workspace rooted at `path` and publishes the corresponding
    /// event: any subscriber that receives it and then reads the store
    /// sees the new workspace.
    pub fn add_workspace(&mut self, path: String, now: u64) -> (w: Workspace)
        requires
            old(self).wf(),
            old(self).workspaces.can_add(),
        ensures
            final(self).wf(),
            w.name@ == crate::text::spec_last_segment(path@),
            w.root_path == path,
            w.created_at == now,
            final(self).workspaces.workspaces() == old(self).workspaces.workspaces().push(w),
            final(self).workspaces.tasks() == old(self).workspaces.tasks(),
            final(self).workspace_bus.log() == old(self).workspace_bus.log().push(
                WorkspaceUpdateEvent::WorkspaceAdded { workspace_id: w.id },
            ),
            forall|u: usize|
                old(self).workspace_bus.is_token(u) ==> #[trigger] final(self).workspace_bus.pending(u) == old(self).workspace_bus.pending(u).push(
                    WorkspaceUpdateEvent::WorkspaceAdded { workspace_id: w.id },
                ),
            final(self).agents == old(self).agents,
            final(self).permissions == old(self).permissions,
            final(self).session_bus == old(self).session_bus,
            final(self).permission_bus == old(self).permission_bus,
            final(self).welcome_session == old(self).welcome_session,
    {
        let (w, ev) = self.workspaces.add_workspace(path, now);
        self.workspace_bus.publish(ev);
        w
    }

    /// Creates a task under a workspace and publishes the corresponding
    /// event.
    pub fn add_task(&mut self, workspace_id: u64, name: String, now: u64) -> (t: WorkspaceTask)
        requires
            old(self).wf(),
            old(self).workspaces.can_add(),
        ensures
            final(self).wf(),
            t.workspace_id == workspace_id,
            t.name == name,
            t.status == crate::workspace::TaskStatus::Pending,
            t.session_id is None,
            final(self).workspaces.tasks() == old(self).workspaces.tasks().push(t),
            final(self).workspaces.workspaces() == old(self).workspaces.workspaces(),
            final(self).workspace_bus.log() == old(self).workspace_bus.log().push(
                WorkspaceUpdateEvent::TaskAdded { task_id: t.id },
            ),
            final(self).agents == old(self).agents,
            final(self).permissions == old(self).permissions,
            final(self).session_bus == old(self).session_bus,
            final(self).permission_bus == old(self).permission_bus,
            final(self).welcome_session == old(self).welcome_session,
    {
        let (t, ev) = self.workspaces.add_task(workspace_id, name, now);
        self.workspace_bus.publish(ev);
        t
    }

    /// Stores `message` as the preview of the first task joined to
    /// `session_id` and publishes the corresponding event; `None` when no
    /// task is joined to that session.
    pub fn update_task_message(&mut self, session_id: &String, message: String, now: u64) -> (r:
        Option<u64>)
        requires
            old(self).wf(),
        ensures
            final(self).wf(),
            r is Some <==> exists|i: int|
                0 <= i < old(self).workspaces.tasks().len()
                    && crate::workspace::task_has_session(
                    #[trigger] old(self).workspaces.tasks()[i],
                    session_id@,
                ),
            r is None ==> *final(self) == *old(self),
            r matches Some(task_id) ==> final(self).workspace_bus.log() == old(
                self,
            ).workspace_bus.log().push(WorkspaceUpdateEvent::TaskUpdated { task_id })
                && exists|i: int|
                {
                    &&& 0 <= i < old(self).workspaces.tasks().len()
                    &&& crate::workspace::task_has_session(
                        #[trigger] old(self).workspaces.tasks()[i],
                        session_id@,
                    )
                    &&& forall|j: int|
                        0 <= j < i ==> !crate::workspace::task_has_session(
                            #[trigger] old(self).workspaces.tasks()[j],
                            session_id@,
                        )
                    &&& final(self).workspaces.tasks() == old(self).workspaces.tasks().update(
                        i,
                        crate::workspace::with_message(
                            old(self).workspaces.tasks()[i],
                            message,
                            now,
                        ),
                    )
                    &&& task_id == old(self).workspaces.tasks()[i].id
                },
            final(self).workspaces.workspaces() == old(self).workspaces.workspaces(),
            final(self).agents == old(self).agents,
            final(self).permissions == old(self).permissions,
            final(self).session_bus == old(self).session_bus,
            final(self).permission_bus == old(self).permission_bus,
            final(self).welcome_session == old(self).welcome_session,
    {
        match self.workspaces.update_task_message(session_id, message, now) {
            None => None,
            Some(ev) => {
                let task_id = match ev {
                    WorkspaceUpdateEvent::TaskUpdated { task_id } => task_id,
                    _ => unreached(),
                };
                self.workspace_bus.publish(ev);
                Some(task_id)
            },
        }
    }
}

/// The updates among `s` that belong to session `sid`, in stream order.
pub open spec fn updates_for(s: Seq<SessionUpdateEvent>, sid: Seq<char>) -> Seq<
    SessionUpdateEvent,
>
    decreases s.len(),
{
    if s.len() == 0 {
        s
    } else {
        let rest = updates_for(s.drop_last(), sid);
        if s.last().session_id@ == sid {
            rest.push(s.last())
        } else {
            rest
        }
    }
}

proof fn lemma_updates_for_concat(x: Seq<SessionUpdateEvent>, y: Seq<SessionUpdateEvent>, sid: Seq<char>)
    ensures
        updates_for(x + y, sid) == updates_for(x, sid) + updates_for(y, sid),
    decreases y.len(),
{
    if y.len() == 0 {
        assert(x + y =~= x);
        assert(updates_for(x, sid) + updates_for(y, sid) =~= updates_for(x, sid));
    } else {
        assert((x + y).drop_last() =~= x + y.drop_last());
        assert((x + y).last() == y.last());
        lemma_updates_for_concat(x, y.drop_last(), sid);
        if y.last().session_id@ == sid {
            assert(updates_for(x, sid) + updates_for(y, sid) =~= (updates_for(x, sid)
                + updates_for(y.drop_last(), sid)).push(y.last()));
        }
    }
}

/// Per-session ordering is shared between subscribers: of the updates for
/// one session id, the subscriber registered later (or reading further)
/// holds exactly a suffix of what the other holds, so both observe that
/// session's updates in the same relative order.
pub proof fn lemma_subscribers_share_session_order(
    bus: &crate::bus::EventBus<SessionUpdateEvent>,
    a: usize,
    b: usize,
    sid: Seq<char>,
)
    requires
        bus.wf(),
        bus.is_subscriber(a),
        bus.is_subscriber(b),
        bus.cursor_of(a) <= bus.cursor_of(b),
    ensures
        updates_for(bus.pending(a), sid) == updates_for(
            bus.pending(a).take(bus.cursor_of(b) - bus.cursor_of(a)),
            sid,
        ) + updates_for(bus.pending(b), sid),
{
    let d = bus.cursor_of(b) - bus.cursor_of(a);
    crate::bus::lemma_subscribers_share_order(bus, a, b);
    assert(bus.pending(a) =~= bus.pending(a).take(d) + bus.pending(a).skip(d));
    lemma_updates_for_concat(bus.pending(a).take(d), bus.pending(a).skip(d), sid);
}

} // verus!
