use acp_core::events::ToolCallStatus;
use acp_core::tasks::{i16_to_string, prepare_all, random_status, status_from_seed, AgentTask};
use acp_core::tool_calls::{
    calculate_diff_stats, extract_diff_stats_from_tool_call, SessionStatus, ToolCall,
    ToolCallContent, ToolCallItem,
};
use acp_core::workspace::TaskStatus;

fn demo_task(adds: i16, dels: i16) -> AgentTask {
    AgentTask {
        name: "demo".to_string(),
        task_type: "Refactor".to_string(),
        add_new_code_lines: adds,
        delete_code_lines: dels,
        status: TaskStatus::Pending,
        change_timestamp: 0,
        change_timestamp_str: String::new(),
        add_new_code_lines_str: String::new(),
        delete_code_lines_str: String::new(),
    }
}

#[test]
fn prepare_renders_the_change_counters() {
    let t = demo_task(12, 5).prepare();
    assert_eq!(t.add_new_code_lines_str, "+12");
    assert_eq!(t.delete_code_lines_str, "-5");
    // a negative counter keeps its sign behind the prefix
    let t = demo_task(-3, 0).prepare();
    assert_eq!(t.add_new_code_lines_str, "+-3");
    assert_eq!(t.delete_code_lines_str, "-0");
    let prepared = prepare_all(vec![demo_task(1, 2), demo_task(30, 40)]);
    assert_eq!(prepared[0].add_new_code_lines_str, "+1");
    assert_eq!(prepared[1].delete_code_lines_str, "-40");
}

#[test]
fn signed_rendering_covers_the_extremes() {
    assert_eq!(i16_to_string(0), "0");
    assert_eq!(i16_to_string(-1), "-1");
    assert_eq!(i16_to_string(i16::MAX), "32767");
    assert_eq!(i16_to_string(i16::MIN), "-32768");
}

#[test]
fn seed_cycles_through_the_four_statuses() {
    assert_eq!(status_from_seed(0), TaskStatus::Pending);
    assert_eq!(status_from_seed(1), TaskStatus::InProgress);
    assert_eq!(status_from_seed(2), TaskStatus::Completed);
    assert_eq!(status_from_seed(3), TaskStatus::Failed);
    assert_eq!(status_from_seed(7), TaskStatus::Failed);
    assert_eq!(status_from_seed(8), TaskStatus::Pending);
    // whatever moment the clock reads, the result is one of the four
    let s = random_status();
    assert!(matches!(
        s,
        TaskStatus::Pending | TaskStatus::InProgress | TaskStatus::Completed | TaskStatus::Failed
    ));
}

#[test]
fn diff_stats_count_inserted_and_deleted_lines() {
    let st = calculate_diff_stats("a\n", "a\nb\n");
    assert_eq!((st.additions, st.deletions), (1, 0));
    let st = calculate_diff_stats("x\ny\n", "x\nz\n");
    assert_eq!((st.additions, st.deletions), (1, 1));
    let st = calculate_diff_stats("same\n", "same\n");
    assert_eq!((st.additions, st.deletions), (0, 0));
    let st = calculate_diff_stats("gone\n", "");
    assert_eq!((st.additions, st.deletions), (0, 1));
}

fn tool_call(content: Vec<ToolCallContent>) -> ToolCall {
    ToolCall {
        id: "tc-1".to_string(),
        title: "Edit file".to_string(),
        status: ToolCallStatus::Pending,
        content,
    }
}

#[test]
fn tool_call_diff_stats_use_the_first_diff() {
    assert!(extract_diff_stats_from_tool_call(&tool_call(vec![])).is_none());
    assert!(extract_diff_stats_from_tool_call(&tool_call(vec![ToolCallContent::Text {
        text: "hi".to_string()
    }]))
    .is_none());
    // a new file counts every line as an addition
    let st = extract_diff_stats_from_tool_call(&tool_call(vec![ToolCallContent::Diff {
        old_text: None,
        new_text: "l1\nl2\nl3".to_string(),
    }]))
    .unwrap();
    assert_eq!((st.additions, st.deletions), (3, 0));
    // an edit diffs old against new
    let st = extract_diff_stats_from_tool_call(&tool_call(vec![
        ToolCallContent::Text { text: "note".to_string() },
        ToolCallContent::Diff {
            old_text: Some("a\nb\n".to_string()),
            new_text: "a\nc\n".to_string(),
        },
    ]))
    .unwrap();
    assert_eq!((st.additions, st.deletions), (1, 1));
}

#[test]
fn tool_call_item_tracks_state_and_status() {
    let mut item = ToolCallItem::new(tool_call(vec![]));
    assert!(!item.is_open());
    assert!(!item.has_content());
    item.toggle();
    assert!(item.is_open());
    item.set_open(false);
    assert!(!item.is_open());
    item.add_content(ToolCallContent::Text { text: "out".to_string() });
    assert!(item.has_content());
    assert_eq!(item.status_to_session_status(), SessionStatus::Pending);
    item.update_status(ToolCallStatus::InProgress);
    assert_eq!(item.status_to_session_status(), SessionStatus::InProgress);
    item.update_status(ToolCallStatus::Completed);
    assert_eq!(item.status_to_session_status(), SessionStatus::Completed);
    item.update_status(ToolCallStatus::Failed);
    assert_eq!(item.status_to_session_status(), SessionStatus::Failed);
    let mut replacement = tool_call(vec![]);
    replacement.status = ToolCallStatus::Pending;
    item.update_tool_call(replacement);
    assert_eq!(item.status_to_session_status(), SessionStatus::Pending);
}
