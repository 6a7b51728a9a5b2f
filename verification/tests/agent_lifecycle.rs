use acp_core::agents::{await_spawn_outcome, AgentState, CreateSessionAction};
use acp_core::config::{AgentProcessConfig, NamedAgentConfig};
use acp_core::errors::ServiceError;
use acp_core::events::{SessionUpdate, SessionUpdateEvent};
use acp_core::permissions::Decision;
use acp_core::services::{AppCore, WelcomeSession};

fn echo_agent(name: &str) -> NamedAgentConfig {
    NamedAgentConfig {
        name: name.to_string(),
        config: AgentProcessConfig {
            command: "cat".to_string(),
            args: vec![],
            env: vec![],
            nodejs_path: None,
        },
    }
}

fn core_with(names: &[&str]) -> AppCore {
    AppCore::new(names.iter().map(|n| echo_agent(n)).collect(), None)
}

#[test]
fn concurrent_creates_spawn_exactly_once() {
    let mut core = core_with(&["echo"]);
    let name = "echo".to_string();
    // the first creation gets the spawn; every concurrent one awaits it
    let first = core.agents.begin_create_session(&name).unwrap();
    assert!(matches!(first, CreateSessionAction::SpawnProcess { .. }));
    let second = core.agents.begin_create_session(&name).unwrap();
    assert!(matches!(second, CreateSessionAction::AwaitSpawn));
    let third = core.agents.begin_create_session(&name).unwrap();
    assert!(matches!(third, CreateSessionAction::AwaitSpawn));
    // once running, callers go straight to the protocol
    core.agents.complete_spawn(&name, true).unwrap();
    let after = core.agents.begin_create_session(&name).unwrap();
    assert!(matches!(after, CreateSessionAction::RequestNewSession));
    // and both awaiting callers can register their sessions
    assert!(core.agents.register_session(&name, "s-1".to_string(), 1).is_ok());
    assert!(core.agents.register_session(&name, "s-2".to_string(), 2).is_ok());
    assert_eq!(core.agents.list_sessions_for_agent(&name).len(), 2);
}

#[test]
fn echo_roundtrip_produces_exactly_one_update() {
    let mut core = core_with(&["echo"]);
    let name = "echo".to_string();
    // subscribe before sending, so the first chunk cannot be missed
    let sub = core.session_bus.subscribe();
    assert!(matches!(
        core.agents.begin_create_session(&name).unwrap(),
        CreateSessionAction::SpawnProcess { .. }
    ));
    core.agents.complete_spawn(&name, true).unwrap();
    let rec = core.agents.register_session(&name, "s-echo".to_string(), 1).unwrap();
    assert_eq!(rec.session_id, "s-echo");

    let out = core
        .send_message_to_session(&name, &"s-echo".to_string(), "hi".to_string(), 2)
        .unwrap();
    assert_eq!(out.agent_name, "echo");
    assert_eq!(out.session_id, "s-echo");
    assert_eq!(out.text, "hi");

    // the agent echoes the text; the router fans it out
    core.route_session_update(
        &"s-echo".to_string(),
        SessionUpdate::AgentMessageChunk { text: "hi".to_string() },
    );
    let seen: Vec<SessionUpdateEvent> = core.session_bus.drain(sub);
    assert_eq!(seen.len(), 1);
    assert_eq!(seen[0].session_id, "s-echo");
    match &seen[0].update {
        SessionUpdate::AgentMessageChunk { text } => assert_eq!(text, "hi"),
        other => panic!("unexpected update: {:?}", other),
    }
}

#[test]
fn sessions_of_an_unspawned_agent_list_as_empty() {
    let core = core_with(&["unspawned"]);
    let sessions = core.agents.list_sessions_for_agent(&"unspawned".to_string());
    assert!(sessions.is_empty());
    // an unknown name lists as empty too, without an error
    assert!(core.agents.list_sessions_for_agent(&"missing".to_string()).is_empty());
}

#[test]
fn send_validation_covers_the_error_taxonomy() {
    let mut core = core_with(&["a", "b"]);
    let a = "a".to_string();
    let b = "b".to_string();
    for n in [&a, &b] {
        core.agents.begin_create_session(n).unwrap();
        core.agents.complete_spawn(n, true).unwrap();
    }
    core.agents.register_session(&a, "s-a".to_string(), 1).unwrap();

    let err = core
        .send_message_to_session(&"nope".to_string(), &"s-a".to_string(), "x".to_string(), 2)
        .unwrap_err();
    assert_eq!(err, ServiceError::AgentNotFound);

    // the session exists, but under agent a, not b
    let err = core
        .send_message_to_session(&b, &"s-a".to_string(), "x".to_string(), 2)
        .unwrap_err();
    assert_eq!(err, ServiceError::SessionMismatch);

    let err = core
        .send_message_to_session(&a, &"never".to_string(), "x".to_string(), 2)
        .unwrap_err();
    assert_eq!(err, ServiceError::SessionClosed);

    core.close_session(&a, &"s-a".to_string(), 3).unwrap();
    let err = core
        .send_message_to_session(&a, &"s-a".to_string(), "x".to_string(), 4)
        .unwrap_err();
    assert_eq!(err, ServiceError::SessionClosed);
}

#[test]
fn failed_spawn_leaves_the_agent_retryable() {
    let mut core = core_with(&["flaky"]);
    let name = "flaky".to_string();
    assert!(matches!(
        core.agents.begin_create_session(&name).unwrap(),
        CreateSessionAction::SpawnProcess { .. }
    ));
    core.agents.complete_spawn(&name, false).unwrap();
    // registering without a running process is a protocol error
    assert_eq!(
        core.agents.register_session(&name, "s".to_string(), 1).unwrap_err(),
        ServiceError::ProtocolError
    );
    // reporting a spawn that is not in flight is one as well
    assert_eq!(
        core.agents.complete_spawn(&name, true).unwrap_err(),
        ServiceError::ProtocolError
    );
    // the next creation retries the spawn
    assert!(matches!(
        core.agents.begin_create_session(&name).unwrap(),
        CreateSessionAction::SpawnProcess { .. }
    ));
}

#[test]
fn closing_a_session_denies_its_pending_permission() {
    let mut core = core_with(&["echo"]);
    let name = "echo".to_string();
    core.agents.begin_create_session(&name).unwrap();
    core.agents.complete_spawn(&name, true).unwrap();
    core.agents.register_session(&name, "s-1".to_string(), 1).unwrap();

    let request_id = core.open_permission_request("s-1".to_string(), vec![]);
    let denied = core.close_session(&name, &"s-1".to_string(), 2).unwrap();
    assert_eq!(denied, vec![request_id]);
    assert!(matches!(
        core.permissions.resolution(request_id),
        Some(Decision::Denied)
    ));
    // the awaited slot was resolved once; a late decision reports that
    assert_eq!(
        core.resolve_permission(request_id, Decision::Denied),
        Err(ServiceError::AlreadyResolved)
    );
}

#[test]
fn a_crash_closes_sessions_and_publishes_failures() {
    let mut core = core_with(&["echo", "other"]);
    let name = "echo".to_string();
    let other = "other".to_string();
    for n in [&name, &other] {
        core.agents.begin_create_session(n).unwrap();
        core.agents.complete_spawn(n, true).unwrap();
    }
    core.agents.register_session(&name, "s-1".to_string(), 1).unwrap();
    core.agents.register_session(&name, "s-2".to_string(), 2).unwrap();
    core.agents.register_session(&other, "s-3".to_string(), 3).unwrap();
    let pending = core.open_permission_request("s-1".to_string(), vec![]);

    let sub = core.session_bus.subscribe();
    let crashed = core.handle_agent_exit(&name).unwrap();
    assert_eq!(crashed, 2);

    // one synthetic failure per formerly open session, in order
    let seen = core.session_bus.drain(sub);
    assert_eq!(seen.len(), 2);
    let ids: Vec<String> = seen.iter().map(|e| e.session_id.clone()).collect();
    assert_eq!(ids, vec!["s-1", "s-2"]);
    for ev in &seen {
        match &ev.update {
            SessionUpdate::SessionFailed { reason } => {
                assert_eq!(reason, "agent process exited")
            }
            other => panic!("unexpected update: {:?}", other),
        }
    }

    // the crashed agent's sessions are gone, the other agent's are not
    assert!(core.agents.list_sessions_for_agent(&name).is_empty());
    assert_eq!(core.agents.list_sessions_for_agent(&other).len(), 1);
    // its pending permission was denied, not left hanging
    assert!(matches!(
        core.permissions.resolution(pending),
        Some(Decision::Denied)
    ));
    // and the agent respawns lazily on the next creation
    assert!(matches!(
        core.agents.begin_create_session(&name).unwrap(),
        CreateSessionAction::SpawnProcess { .. }
    ));
}

#[test]
fn duplicate_agent_names_keep_the_first_spec_and_unknown_agents_fail() {
    let mut core = AppCore::new(
        vec![echo_agent("twin"), echo_agent("twin")],
        None,
    );
    assert_eq!(core.agents.list_agents(), vec!["twin"]);
    assert_eq!(
        core.agents.begin_create_session(&"ghost".to_string()).unwrap_err(),
        ServiceError::AgentNotFound
    );
    assert_eq!(
        core.handle_agent_exit(&"ghost".to_string()).unwrap_err(),
        ServiceError::AgentNotFound
    );
}

#[test]
fn welcome_session_is_set_read_and_cleared() {
    let mut core = core_with(&["echo"]);
    assert!(core.welcome_session().is_none());
    core.set_welcome_session(WelcomeSession {
        session_id: "s-w".to_string(),
        agent_name: "echo".to_string(),
    });
    let w = core.welcome_session().unwrap();
    assert_eq!(w.session_id, "s-w");
    assert_eq!(w.agent_name, "echo");
    core.clear_welcome_session();
    assert!(core.welcome_session().is_none());
}

#[test]
fn duplicate_session_registration_is_refused() {
    let mut core = core_with(&["echo"]);
    let name = "echo".to_string();
    core.agents.begin_create_session(&name).unwrap();
    core.agents.complete_spawn(&name, true).unwrap();
    core.agents.register_session(&name, "s-1".to_string(), 1).unwrap();
    assert_eq!(
        core.agents.register_session(&name, "s-1".to_string(), 2).unwrap_err(),
        ServiceError::ProtocolError
    );
}

#[test]
fn awaiting_callers_learn_the_spawn_outcome() {
    let mut core = core_with(&["flaky"]);
    let name = "flaky".to_string();
    core.agents.begin_create_session(&name).unwrap();
    // a concurrent caller awaits; the spawn fails
    assert!(matches!(
        core.agents.begin_create_session(&name).unwrap(),
        CreateSessionAction::AwaitSpawn
    ));
    core.agents.complete_spawn(&name, false).unwrap();
    let state = core.agents.agent_state(&name).unwrap();
    assert_eq!(state, AgentState::Stopped);
    assert_eq!(
        await_spawn_outcome(state),
        Err(ServiceError::ProcessSpawnFailed)
    );
    // after a successful retry the waiter proceeds
    core.agents.begin_create_session(&name).unwrap();
    core.agents.complete_spawn(&name, true).unwrap();
    assert!(await_spawn_outcome(core.agents.agent_state(&name).unwrap()).is_ok());
    assert!(core.agents.agent_state(&"missing".to_string()).is_none());
}

#[test]
fn crash_state_is_observable() {
    let mut core = core_with(&["echo"]);
    let name = "echo".to_string();
    core.agents.begin_create_session(&name).unwrap();
    core.agents.complete_spawn(&name, true).unwrap();
    core.handle_agent_exit(&name).unwrap();
    // a crashed agent's sessions list as empty, like an unspawned one
    assert!(core.agents.list_sessions_for_agent(&name).is_empty());
    assert_eq!(core.agents.agent_state(&name).unwrap(), AgentState::Crashed);
}
