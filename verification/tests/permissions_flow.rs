use acp_core::errors::ServiceError;
use acp_core::events::PermissionOption;
use acp_core::permissions::{Decision, PermissionStore};

fn opt(id: &str, label: &str) -> PermissionOption {
    PermissionOption {
        option_id: id.to_string(),
        label: label.to_string(),
    }
}

#[test]
fn resolve_twice_reports_already_resolved_and_keeps_first() {
    let mut store = PermissionStore::new();
    let ev = store.open_request("s-1".to_string(), vec![opt("allow", "Allow")]);
    let id = ev.request_id;
    assert!(store
        .resolve(
            id,
            Decision::Selected {
                option_id: "allow".to_string()
            }
        )
        .is_ok());
    let second = store.resolve(id, Decision::Denied);
    assert_eq!(second, Err(ServiceError::AlreadyResolved));
    match store.resolution(id) {
        Some(Decision::Selected { option_id }) => assert_eq!(option_id, "allow"),
        other => panic!("first resolution was disturbed: {:?}", other),
    }
}

#[test]
fn unknown_request_id_is_an_error_not_a_crash() {
    let mut store = PermissionStore::new();
    let r = store.resolve(42, Decision::Denied);
    assert_eq!(r, Err(ServiceError::UnknownRequest));
    assert!(store.resolution(42).is_none());
}

#[test]
fn request_ids_are_not_reused() {
    let mut store = PermissionStore::new();
    let a = store.open_request("s-1".to_string(), vec![]).request_id;
    let b = store.open_request("s-1".to_string(), vec![]).request_id;
    let c = store.open_request("s-2".to_string(), vec![]).request_id;
    assert_ne!(a, b);
    assert_ne!(b, c);
    assert_ne!(a, c);
}

#[test]
fn cancel_session_denies_only_its_pending_requests() {
    let mut store = PermissionStore::new();
    let here = store.open_request("s-1".to_string(), vec![]).request_id;
    let resolved = store.open_request("s-1".to_string(), vec![]).request_id;
    let elsewhere = store.open_request("s-2".to_string(), vec![]).request_id;
    store
        .resolve(
            resolved,
            Decision::Selected {
                option_id: "x".to_string(),
            },
        )
        .unwrap();
    let denied = store.cancel_session(&"s-1".to_string());
    assert_eq!(denied, vec![here]);
    assert!(matches!(store.resolution(here), Some(Decision::Denied)));
    match store.resolution(resolved) {
        Some(Decision::Selected { option_id }) => assert_eq!(option_id, "x"),
        other => panic!("resolved request was disturbed: {:?}", other),
    }
    assert!(store.resolution(elsewhere).is_none());
    // resolving a denied request now reports it as already resolved
    assert_eq!(
        store.resolve(here, Decision::Denied),
        Err(ServiceError::AlreadyResolved)
    );
}

#[test]
fn error_messages_name_each_failure() {
    assert_eq!(ServiceError::AgentNotFound.message(), "agent not found");
    assert_eq!(
        ServiceError::ProcessSpawnFailed.message(),
        "process spawn failed"
    );
    assert_eq!(ServiceError::ProtocolError.message(), "protocol error");
    assert_eq!(ServiceError::SessionClosed.message(), "session closed");
    assert_eq!(ServiceError::SessionMismatch.message(), "session mismatch");
    assert_eq!(ServiceError::TransportError.message(), "transport error");
    assert_eq!(ServiceError::UnknownRequest.message(), "unknown request");
    assert_eq!(ServiceError::AlreadyResolved.message(), "already resolved");
    assert_eq!(
        ServiceError::PersistenceError.message(),
        "persistence error"
    );
}
