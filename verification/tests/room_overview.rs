use netcore::node_state::TelemetryEvent;
use netcore::room_registry::{ControlRoomState, NodeMessage};
use serde_json::Value;

fn s(t: &str) -> String {
    t.to_string()
}

fn registration(node: &str, seq: u64, issi: u32) -> NodeMessage {
    NodeMessage::Telemetry {
        node_id: s(node),
        seq,
        timestamp: s("t"),
        event: TelemetryEvent::MsRegistration { issi },
        record: Value::Null,
    }
}

#[test]
fn overview_adds_up_the_nodes_and_shows_newest_commands_first() {
    let mut room = ControlRoomState::new_at(100, s("start"));
    room.apply_node_message_at(registration("a", 1, 1001), s("now"));
    room.apply_node_message_at(registration("a", 2, 1002), s("now"));
    room.apply_node_message_at(registration("b", 1, 2001), s("now"));
    room.apply_node_message_at(
        NodeMessage::Heartbeat { node_id: s("c"), connected: false, seq: 1, timestamp: s("t") },
        s("now"),
    );
    room.mark_node_disconnected_at("c", s("later"));
    for k in 0..25u32 {
        let id = format!("c{}", k);
        room.record_command_queued_at(id, s("a"), None, s("t0"), Value::Null, s("t1"));
    }
    let o = room.overview_at(s("later"));
    assert_eq!(o.started_at, "start");
    assert_eq!(o.now, "later");
    assert_eq!(o.node_count, 3);
    assert_eq!(o.nodes.len(), 3);
    assert_eq!(o.subscribers_total, 3);
    assert_eq!(o.subscribers_online, 3);
    assert_eq!(o.nodes_connected, 2);
    assert_eq!(o.recent_commands.len(), 20);
    assert_eq!(o.recent_commands[0].command_id, "c24");
    assert_eq!(o.recent_commands[19].command_id, "c5");
    assert_eq!(o.recent_commands[0].target_node_id, "a");
}

#[test]
fn overview_of_an_empty_room() {
    let room = ControlRoomState::new_at(10, s("start"));
    let o = room.overview_at(s("now"));
    assert_eq!(o.node_count, 0);
    assert_eq!(o.nodes_connected, 0);
    assert_eq!(o.subscribers_total, 0);
    assert!(o.recent_commands.is_empty());
}
