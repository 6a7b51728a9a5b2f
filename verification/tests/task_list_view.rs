use acp_core::config::{AgentProcessConfig, NamedAgentConfig};
use acp_core::events::{SessionUpdate, WorkspaceUpdateEvent};
use acp_core::services::AppCore;
use acp_core::chat_input::ContextListDelegate;
use acp_core::task_list::{IndexPath, message_preview, TaskListDelegate};
use acp_core::workspace::{TaskStatus, Workspace, WorkspaceTask};

fn ws(id: u64, name: &str) -> Workspace {
    Workspace {
        id,
        name: name.to_string(),
        root_path: format!("/p/{}", name),
        created_at: 1,
    }
}

fn task(id: u64, wid: u64, name: &str, created_at: u64) -> WorkspaceTask {
    WorkspaceTask {
        id,
        workspace_id: wid,
        name: name.to_string(),
        status: TaskStatus::Pending,
        session_id: None,
        last_message: None,
        created_at,
        updated_at: created_at,
    }
}

#[test]
fn loading_groups_filters_and_sorts() {
    let mut d = TaskListDelegate::new();
    let workspaces = vec![ws(1, "alpha"), ws(2, "beta")];
    let tasks = vec![
        task(10, 1, "old task", 5),
        task(11, 2, "other", 8),
        task(12, 1, "new task", 9),
        task(13, 1, "middle", 7),
    ];
    d.load_from_service(workspaces.clone(), tasks.clone());
    assert_eq!(d.workspaces.len(), 2);
    assert_eq!(d.workspace_tasks.len(), 2);
    let first: Vec<u64> = d.workspace_tasks[0].iter().map(|t| t.id).collect();
    // newest first within the workspace
    assert_eq!(first, vec![12, 13, 10]);
    let second: Vec<u64> = d.workspace_tasks[1].iter().map(|t| t.id).collect();
    assert_eq!(second, vec![11]);

    // the query filters case-insensitively on the task name
    d.prepare("TASK".to_string());
    d.load_from_service(workspaces, tasks);
    let first: Vec<u64> = d.workspace_tasks[0].iter().map(|t| t.id).collect();
    assert_eq!(first, vec![12, 10]);
    assert!(d.workspace_tasks[1].is_empty());
}

#[test]
fn counts_respect_collapse_and_placeholder() {
    let mut d = TaskListDelegate::new();
    d.load_from_service(vec![ws(1, "a"), ws(2, "b")], vec![task(1, 1, "t", 1)]);
    assert_eq!(d.sections_count(), 2);
    assert_eq!(d.items_count(0), 1);
    // an empty workspace still shows one placeholder row
    assert_eq!(d.items_count(1), 1);
    d.toggle_section_collapsed(0);
    assert!(d.is_section_collapsed(0));
    assert_eq!(d.items_count(0), 0);
    d.toggle_section_collapsed(0);
    assert!(!d.is_section_collapsed(0));
    assert_eq!(d.items_count(0), 1);
}

#[test]
fn selection_follows_the_index_path() {
    let mut d = TaskListDelegate::new();
    d.load_from_service(
        vec![ws(1, "a"), ws(2, "b")],
        vec![task(1, 1, "first", 2), task(2, 2, "second", 3)],
    );
    // the default selection is the first row of the first section
    let t = d.selected_task().unwrap();
    assert_eq!(t.id, 1);
    let w = d.selected_workspace().unwrap();
    assert_eq!(w.id, 1);
    d.selected_index = Some(IndexPath { section: 1, row: 0 });
    assert_eq!(d.selected_task().unwrap().id, 2);
    d.selected_index = Some(IndexPath { section: 5, row: 0 });
    assert!(d.selected_task().is_none());
    assert!(d.selected_workspace().is_none());
}

#[test]
fn tasks_are_added_and_previews_updated_in_place() {
    let mut d = TaskListDelegate::new();
    d.load_from_service(vec![ws(1, "a")], vec![task(1, 1, "existing", 4)]);
    d.add_workspace(ws(2, "b"));
    assert_eq!(d.sections_count(), 2);

    let mut joined = task(2, 1, "joined", 6);
    joined.session_id = Some("s-1".to_string());
    d.add_task(joined);
    // the new task goes to the front of its workspace's section
    let first: Vec<u64> = d.workspace_tasks[0].iter().map(|t| t.id).collect();
    assert_eq!(first, vec![2, 1]);

    assert!(d.update_task_message(&"s-1".to_string(), "preview text".to_string()));
    assert_eq!(
        d.workspace_tasks[0][0].last_message.as_deref(),
        Some("preview text")
    );
    assert!(!d.update_task_message(&"s-none".to_string(), "x".to_string()));
}

#[test]
fn message_previews_come_only_from_message_chunks() {
    let p = message_preview(
        &SessionUpdate::AgentMessageChunk { text: "hello".to_string() },
        50,
    )
    .unwrap();
    assert_eq!(p, "hello");
    let long = "y".repeat(60);
    let p = message_preview(&SessionUpdate::UserMessageChunk { text: long }, 50).unwrap();
    assert_eq!(p.len(), 53);
    assert!(p.ends_with("..."));
    assert!(message_preview(
        &SessionUpdate::AgentMessageChunk { text: String::new() },
        50
    )
    .is_none());
    assert!(message_preview(
        &SessionUpdate::PlanChange { summary: "plan".to_string() },
        50
    )
    .is_none());
}

#[test]
fn context_picker_offers_the_seven_kinds() {
    let d = ContextListDelegate::new();
    assert_eq!(d.items_count(), 7);
    let names: Vec<String> = d.items.iter().map(|i| i.name.clone()).collect();
    assert_eq!(
        names,
        vec!["Files", "Folders", "Code", "Git Changes", "Terminal", "Problems", "URLs"]
    );
    assert_eq!(d.items[3].icon, "git-branch");
}

#[test]
fn workspace_added_event_reaches_subscribers_before_they_reread() {
    // read-after-notify: a subscriber that saw the event finds the
    // workspace in the snapshots it then loads
    let mut core = AppCore::new(
        vec![NamedAgentConfig {
            name: "echo".to_string(),
            config: AgentProcessConfig {
                command: "cat".to_string(),
                args: vec![],
                env: vec![],
                nodejs_path: None,
            },
        }],
        None,
    );
    let sub = core.workspace_bus.subscribe();
    let w = core.add_workspace("/projects/demo".to_string(), 7);
    let events = core.workspace_bus.drain(sub);
    assert_eq!(
        events,
        vec![WorkspaceUpdateEvent::WorkspaceAdded { workspace_id: w.id }]
    );
    // what the notified subscriber now reads reflects the new workspace
    let workspaces = core.workspaces.list_workspaces();
    let all_tasks = core.workspaces.get_all_tasks();
    assert!(workspaces.iter().any(|x| x.id == w.id && x.name == "demo"));
    let mut d = TaskListDelegate::new();
    d.load_from_service(workspaces, all_tasks);
    assert_eq!(d.sections_count(), 1);
}
