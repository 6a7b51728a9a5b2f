use vstd::prelude::*;

verus! {

/// Failure taxonomy of the orchestration core.
///
/// Correlation failures (`UnknownRequest`, `AlreadyResolved`) are benign and
/// returned to the immediate caller; process-level failures are absorbed at
/// the manager boundary and surfaced as synthetic failed-session updates.
#[derive(Clone, Copy, PartialEq, Eq, Structural, Debug)]
pub enum ServiceError {
    /// The named agent is not configured.
    AgentNotFound,
    /// The agent subprocess could not be started.
    ProcessSpawnFailed,
    /// The protocol handshake or an envelope was malformed.
    ProtocolError,
    /// The session is no longer active.
    SessionClosed,
    /// The session exists but belongs to a different agent.
    SessionMismatch,
    /// The transport rejected a write.
    TransportError,
    /// No pending permission request carries the given id.
    UnknownRequest,
    /// The permission request was already resolved once.
    AlreadyResolved,
    /// The backing store rejected a read or write.
    PersistenceError,
}

impl ServiceError {
    /// A short name for logs and inline error states.
    pub fn message(&self) -> (r: String)
        ensures
            r@ == (match self {
                ServiceError::AgentNotFound => "agent not found"@,
                ServiceError::ProcessSpawnFailed => "process spawn failed"@,
                ServiceError::ProtocolError => "protocol error"@,
                ServiceError::SessionClosed => "session closed"@,
                ServiceError::SessionMismatch => "session mismatch"@,
                ServiceError::TransportError => "transport error"@,
                ServiceError::UnknownRequest => "unknown request"@,
                ServiceError::AlreadyResolved => "already resolved"@,
                ServiceError::PersistenceError => "persistence error"@,
            }),
    {
        match self {
            ServiceError::AgentNotFound => String::from_str("agent not found"),
            ServiceError::ProcessSpawnFailed => String::from_str("process spawn failed"),
            ServiceError::ProtocolError => String::from_str("protocol error"),
            ServiceError::SessionClosed => String::from_str("session closed"),
            ServiceError::SessionMismatch => String::from_str("session mismatch"),
            ServiceError::TransportError => String::from_str("transport error"),
            ServiceError::UnknownRequest => String::from_str("unknown request"),
            ServiceError::AlreadyResolved => String::from_str("already resolved"),
            ServiceError::PersistenceError => String::from_str("persistence error"),
        }
    }
}

} // verus!
