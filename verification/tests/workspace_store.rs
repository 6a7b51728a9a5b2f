use acp_core::events::WorkspaceUpdateEvent;
use acp_core::workspace::{TaskStatus, Workspace, WorkspaceStore, WorkspaceTask};

fn ws(id: u64, name: &str, path: &str) -> Workspace {
    Workspace {
        id,
        name: name.to_string(),
        root_path: path.to_string(),
        created_at: 1,
    }
}

fn task(id: u64, wid: u64, name: &str) -> WorkspaceTask {
    WorkspaceTask {
        id,
        workspace_id: wid,
        name: name.to_string(),
        status: TaskStatus::Pending,
        session_id: None,
        last_message: None,
        created_at: 1,
        updated_at: 1,
    }
}

#[test]
fn missing_persisted_state_yields_empty_store() {
    let store = WorkspaceStore::recover(None);
    assert!(store.list_workspaces().is_empty());
    assert!(store.get_all_tasks().is_empty());
}

#[test]
fn valid_snapshot_is_restored_as_it_was() {
    let store = WorkspaceStore::recover(Some((
        vec![ws(3, "one", "/p/one"), ws(5, "two", "/p/two")],
        vec![task(1, 3, "t1"), task(2, 5, "t2")],
    )));
    let names: Vec<String> = store.list_workspaces().iter().map(|w| w.name.clone()).collect();
    assert_eq!(names, vec!["one", "two"]);
    assert_eq!(store.get_all_tasks().len(), 2);
    // ids keep counting past the restored ones
    let mut store = store;
    let (w, _) = store.add_workspace("/p/three".to_string(), 9);
    assert!(w.id > 5);
}

#[test]
fn corrupt_snapshot_falls_back_to_empty() {
    let dup = WorkspaceStore::recover(Some((
        vec![ws(3, "a", "/a"), ws(3, "b", "/b")],
        vec![],
    )));
    assert!(dup.list_workspaces().is_empty());
    let dup_tasks = WorkspaceStore::recover(Some((
        vec![],
        vec![task(7, 0, "x"), task(7, 0, "y")],
    )));
    assert!(dup_tasks.get_all_tasks().is_empty());
}

#[test]
fn add_workspace_derives_name_from_path() {
    let mut store = WorkspaceStore::new();
    let (w, ev) = store.add_workspace("/home/user/projects/demo".to_string(), 42);
    assert_eq!(w.name, "demo");
    assert_eq!(w.root_path, "/home/user/projects/demo");
    assert_eq!(w.created_at, 42);
    assert_eq!(ev, WorkspaceUpdateEvent::WorkspaceAdded { workspace_id: w.id });
    let listed = store.list_workspaces();
    assert_eq!(listed.len(), 1);
    assert_eq!(listed[0].name, "demo");
}

#[test]
fn tasks_flow_from_creation_to_preview() {
    let mut store = WorkspaceStore::new();
    let (w, _) = store.add_workspace("/p/demo".to_string(), 1);
    let (t, ev) = store.add_task(w.id, "fix it".to_string(), 2);
    assert_eq!(ev, WorkspaceUpdateEvent::TaskAdded { task_id: t.id });
    assert_eq!(t.status, TaskStatus::Pending);
    assert!(t.session_id.is_none());

    let ev = store.update_task_status(t.id, TaskStatus::InProgress, 3).unwrap();
    assert_eq!(ev, WorkspaceUpdateEvent::TaskUpdated { task_id: t.id });
    assert!(store.update_task_status(999, TaskStatus::Failed, 3).is_none());

    store.set_task_session(t.id, "s-9".to_string(), 4).unwrap();
    let ev = store
        .update_task_message(&"s-9".to_string(), "first reply".to_string(), 5)
        .unwrap();
    assert_eq!(ev, WorkspaceUpdateEvent::TaskUpdated { task_id: t.id });
    let all = store.get_all_tasks();
    assert_eq!(all[0].last_message.as_deref(), Some("first reply"));
    assert_eq!(all[0].updated_at, 5);
    assert_eq!(all[0].status, TaskStatus::InProgress);

    assert!(store
        .update_task_message(&"unknown".to_string(), "x".to_string(), 6)
        .is_none());
}

#[test]
fn core_level_task_flow_publishes_each_mutation() {
    let mut core = acp_core::services::AppCore::new(vec![], None);
    let sub = core.workspace_bus.subscribe();
    let w = core.add_workspace("/p/demo".to_string(), 1);
    let t = core.add_task(w.id, "try it".to_string(), 2);
    core.workspaces.set_task_session(t.id, "s-1".to_string(), 3).unwrap();
    let updated = core
        .update_task_message(&"s-1".to_string(), "done".to_string(), 4)
        .unwrap();
    assert_eq!(updated, t.id);
    assert!(core
        .update_task_message(&"s-none".to_string(), "x".to_string(), 5)
        .is_none());
    let events = core.workspace_bus.drain(sub);
    assert_eq!(
        events,
        vec![
            WorkspaceUpdateEvent::WorkspaceAdded { workspace_id: w.id },
            WorkspaceUpdateEvent::TaskAdded { task_id: t.id },
            WorkspaceUpdateEvent::TaskUpdated { task_id: t.id },
        ]
    );
    let tasks = core.workspaces.get_all_tasks();
    assert_eq!(tasks[0].last_message.as_deref(), Some("done"));
}
