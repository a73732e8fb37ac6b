use netcore::command_submit::{fill_command_envelope, fill_command_envelope_at, CommandDelivery};
use netcore::room_registry::ControlRoomState;
use netcore::sec_echolink::normalize_echolink_target;
use serde_json::Value;

fn s(t: &str) -> String {
    t.to_string()
}

#[test]
fn blank_ids_and_times_are_filled_in() {
    assert_eq!(fill_command_envelope_at(s("  "), s(""), s("fresh"), s("now")), (s("fresh"), s("now")));
    assert_eq!(fill_command_envelope_at(s("c1"), s("t0"), s("fresh"), s("now")), (s("c1"), s("t0")));
    let (id, at) = fill_command_envelope(s(""), s(" "));
    assert_eq!(id.len(), 36);
    assert!(at.ends_with('Z'));
    assert_eq!(fill_command_envelope(s("c2"), s("t2")), (s("c2"), s("t2")));
}

#[test]
fn submitted_commands_are_refused_or_recorded() {
    let mut room = ControlRoomState::new_at(10, s("start"));
    let refused = room.settle_submitted_command_at(s("c1"), s("n1"), None, s("t0"), Value::Null, CommandDelivery::NotConnected, s("t1"));
    assert_eq!(refused.err(), Some(s("node 'n1' is not connected")));
    let failed = room.settle_submitted_command_at(s("c1"), s("n1"), None, s("t0"), Value::Null, CommandDelivery::QueueFailed(s("closed")), s("t1"));
    assert_eq!(failed.err(), Some(s("failed to queue command for node 'n1': closed")));
    assert!(room.recent_commands.is_empty());
    let q = room
        .settle_submitted_command_at(s("c1"), s("n1"), Some(s("op")), s("t0"), Value::Null, CommandDelivery::Queued, s("t1"))
        .ok()
        .unwrap();
    assert_eq!((q.command_id.as_str(), q.target_node_id.as_str(), q.status.as_str(), q.timestamp.as_str()), ("c1", "n1", "queued", "t1"));
    assert_eq!(room.recent_commands.len(), 1);
    assert_eq!(room.recent_commands[0].status, "queued");
    assert_eq!(room.recent_commands[0].issued_at, "t0");
}

#[test]
fn echolink_target_normalisation_is_stable() {
    for t in ["  *echotest* ", "k1abc-l", "\tConf\n", ""] {
        let once = normalize_echolink_target(t);
        assert_eq!(normalize_echolink_target(&once), once);
    }
    assert_eq!(normalize_echolink_target("  k1abc-l "), "K1ABC-L");
}
