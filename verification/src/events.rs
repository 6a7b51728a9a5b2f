use vstd::prelude::*;

verus! {

/// The lifecycle state of one tool call inside a session.
#[derive(Clone, Copy, PartialEq, Eq, Structural, Debug)]
pub enum ToolCallStatus {
    /// Announced, not yet started.
    Pending,
    /// Currently executing.
    InProgress,
    /// Finished successfully.
    Completed,
    /// Finished with an error.
    Failed,
}

/// One streamed update within a session, as the protocol reports it.
#[derive(Debug)]
pub enum SessionUpdate {
    /// A chunk of the user's message echoed into the stream.
    UserMessageChunk { text: String },
    /// A chunk of the agent's streamed reply.
    AgentMessageChunk { text: String },
    /// A tool call changed status.
    ToolCallUpdate { tool_call_id: String, status: ToolCallStatus },
    /// The agent announced or revised its plan.
    PlanChange { summary: String },
    /// The hosting process failed; the session is closed.
    SessionFailed { reason: String },
}

impl Clone for SessionUpdate {
    fn clone(&self) -> (res: Self)
        ensures
            res == *self,
    {
        match self {
            SessionUpdate::UserMessageChunk { text } => SessionUpdate::UserMessageChunk {
                text: text.clone(),
            },
            SessionUpdate::AgentMessageChunk { text } => SessionUpdate::AgentMessageChunk {
                text: text.clone(),
            },
            SessionUpdate::ToolCallUpdate { tool_call_id, status } => SessionUpdate::ToolCallUpdate {
                tool_call_id: tool_call_id.clone(),
                status: *status,
            },
            SessionUpdate::PlanChange { summary } => SessionUpdate::PlanChange {
                summary: summary.clone(),
            },
            SessionUpdate::SessionFailed { reason } => SessionUpdate::SessionFailed {
                reason: reason.clone(),
            },
        }
    }
}

/// An immutable envelope pairing a session id with one update.
#[derive(Debug)]
pub struct SessionUpdateEvent {
    /// The session the update belongs to.
    pub session_id: String,
    /// The update itself.
    pub update: SessionUpdate,
}

impl Clone for SessionUpdateEvent {
    fn clone(&self) -> (res: Self)
        ensures
            res == *self,
    {
        SessionUpdateEvent { session_id: self.session_id.clone(), update: self.update.clone() }
    }
}

/// One choice offered to the user by a permission request.
#[derive(Debug)]
pub struct PermissionOption {
    /// Protocol-issued identifier of the choice.
    pub option_id: String,
    /// Human-readable label.
    pub label: String,
}

impl Clone for PermissionOption {
    fn clone(&self) -> (res: Self)
        ensures
            res == *self,
    {
        PermissionOption { option_id: self.option_id.clone(), label: self.label.clone() }
    }
}

/// An agent asks leave to perform a tool call: the correlator publishes this
/// envelope and awaits a decision for the request id.
#[derive(Debug)]
pub struct PermissionRequestEvent {
    /// Correlation key, unique per outstanding request.
    pub request_id: u64,
    /// The session the tool call belongs to.
    pub session_id: String,
    /// The offered option set.
    pub options: Vec<PermissionOption>,
}

impl PermissionRequestEvent {
    /// Whether `other` carries the same request: same id, session and
    /// option set.
    pub open spec fn same_request(&self, other: &Self) -> bool {
        &&& self.request_id == other.request_id
        &&& self.session_id == other.session_id
        &&& self.options@ == other.options@
    }
}

impl Clone for PermissionRequestEvent {
    fn clone(&self) -> (res: Self)
        ensures
            res.same_request(self),
    {
        let mut options: Vec<PermissionOption> = Vec::new();
        let mut i: usize = 0;
        while i < self.options.len()
            invariant
                i <= self.options@.len(),
                options@.len() == i,
                forall|j: int| 0 <= j < i ==> options@[j] == self.options@[j],
            decreases self.options@.len() - i,
        {
            options.push(self.options[i].clone());
            i = i + 1;
        }
        proof {
            assert(options@ =~= self.options@);
        }
        PermissionRequestEvent {
            request_id: self.request_id,
            session_id: self.session_id.clone(),
            options,
        }
    }
}

/// A mutation of the workspace/task collection, published after the store
/// has applied and persisted it.
#[derive(Copy, PartialEq, Eq, Structural, Debug)]
pub enum WorkspaceUpdateEvent {
    /// A workspace was added under the given id.
    WorkspaceAdded { workspace_id: u64 },
    /// A task was created under the given id.
    TaskAdded { task_id: u64 },
    /// An existing task changed (status, session id or preview).
    TaskUpdated { task_id: u64 },
}

impl Clone for WorkspaceUpdateEvent {
    fn clone(&self) -> (res: Self)
        ensures
            res == *self,
    {
        *self
    }
}

/// A session update event handed out by a bus is the published one: its
/// `Clone` reproduces the value exactly.
pub proof fn lemma_session_event_cloned_eq(a: SessionUpdateEvent, b: SessionUpdateEvent)
    requires
        cloned(a, b),
    ensures
        a == b,
{
}

/// A workspace update event handed out by a bus is the published one.
pub proof fn lemma_workspace_event_cloned_eq(a: WorkspaceUpdateEvent, b: WorkspaceUpdateEvent)
    requires
        cloned(a, b),
    ensures
        a == b,
{
}

/// A permission request event handed out by a bus carries the same request
/// as the published one: same id, session and option set.
pub proof fn lemma_permission_event_cloned_same(a: PermissionRequestEvent, b: PermissionRequestEvent)
    requires
        cloned(a, b),
    ensures
        b.same_request(&a),
{
}

} // verus!
