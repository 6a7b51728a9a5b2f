use acp_core::bus::EventBus;
use acp_core::events::{SessionUpdate, SessionUpdateEvent, WorkspaceUpdateEvent};

fn chunk(sid: &str, text: &str) -> SessionUpdateEvent {
    SessionUpdateEvent {
        session_id: sid.to_string(),
        update: SessionUpdate::AgentMessageChunk { text: text.to_string() },
    }
}

fn text_of(ev: &SessionUpdateEvent) -> String {
    match &ev.update {
        SessionUpdate::AgentMessageChunk { text } => text.clone(),
        SessionUpdate::UserMessageChunk { text } => text.clone(),
        _ => String::new(),
    }
}

#[test]
fn two_subscribers_observe_same_order() {
    let mut bus: EventBus<SessionUpdateEvent> = EventBus::new();
    let a = bus.subscribe();
    let b = bus.subscribe();
    bus.publish(chunk("s-1", "first"));
    bus.publish(chunk("s-1", "second"));
    bus.publish(chunk("s-1", "third"));
    let seen_a: Vec<String> = bus.drain(a).iter().map(text_of).collect();
    let seen_b: Vec<String> = bus.drain(b).iter().map(text_of).collect();
    assert_eq!(seen_a, vec!["first", "second", "third"]);
    assert_eq!(seen_a, seen_b);
}

#[test]
fn late_subscriber_gets_no_replay() {
    let mut bus: EventBus<SessionUpdateEvent> = EventBus::new();
    let early = bus.subscribe();
    bus.publish(chunk("s-1", "before"));
    let late = bus.subscribe();
    bus.publish(chunk("s-1", "after"));
    let seen_early: Vec<String> = bus.drain(early).iter().map(text_of).collect();
    let seen_late: Vec<String> = bus.drain(late).iter().map(text_of).collect();
    assert_eq!(seen_early, vec!["before", "after"]);
    assert_eq!(seen_late, vec!["after"]);
}

#[test]
fn slow_subscriber_does_not_block_another() {
    let mut bus: EventBus<WorkspaceUpdateEvent> = EventBus::new();
    let slow = bus.subscribe();
    let fast = bus.subscribe();
    bus.publish(WorkspaceUpdateEvent::WorkspaceAdded { workspace_id: 1 });
    bus.publish(WorkspaceUpdateEvent::TaskAdded { task_id: 2 });
    // the fast subscriber consumes everything while the slow one sits still
    let seen_fast = bus.drain(fast);
    assert_eq!(
        seen_fast,
        vec![
            WorkspaceUpdateEvent::WorkspaceAdded { workspace_id: 1 },
            WorkspaceUpdateEvent::TaskAdded { task_id: 2 },
        ]
    );
    // the slow one still sees the full stream afterwards, in order
    let seen_slow = bus.drain(slow);
    assert_eq!(seen_slow, seen_fast);
}

#[test]
fn take_next_empty_and_unsubscribe() {
    let mut bus: EventBus<WorkspaceUpdateEvent> = EventBus::new();
    let t = bus.subscribe();
    assert!(bus.take_next(t).is_none());
    bus.publish(WorkspaceUpdateEvent::TaskUpdated { task_id: 7 });
    assert_eq!(
        bus.take_next(t),
        Some(WorkspaceUpdateEvent::TaskUpdated { task_id: 7 })
    );
    assert!(bus.take_next(t).is_none());
    bus.unsubscribe(t);
}
