use acp_core::agents::SessionRecord;
use acp_core::chat_input::{message_is_blank, session_display, session_labels};

#[test]
fn blank_messages_are_recognized() {
    assert!(message_is_blank(""));
    assert!(message_is_blank("   "));
    assert!(message_is_blank(" \t\n "));
    assert!(!message_is_blank("hi"));
    assert!(!message_is_blank("  a  "));
}

#[test]
fn session_labels_shorten_long_ids() {
    assert_eq!(session_display("abcdefgh1234"), "Session abcdefgh");
    assert_eq!(session_display("short"), "Session short");
    assert_eq!(session_display("exactly8"), "Session exactly8");
    assert_eq!(session_display(""), "Session ");
}

#[test]
fn label_lists_follow_the_snapshot() {
    let sessions = vec![
        SessionRecord {
            session_id: "0123456789".to_string(),
            agent_name: "a".to_string(),
            created_at: 1,
            last_activity: 1,
            open: true,
        },
        SessionRecord {
            session_id: "s2".to_string(),
            agent_name: "a".to_string(),
            created_at: 2,
            last_activity: 2,
            open: true,
        },
    ];
    assert_eq!(
        session_labels(&sessions),
        vec!["Session 01234567", "Session s2"]
    );
}
